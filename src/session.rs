//! The session registry: the authoritative record of every session by id,
//! with the handles that a live session owns.
//!
//! The registry decides; the daemon around it performs the terminal and disk
//! work. The handle types are the daemon's: `P` is a session's terminal
//! (master and writer), `R` its reader task, `D` its persistence.
//! Each session's status tells which handles it holds: a starting or running
//! session holds both a terminal and a reader, a stopped one holds neither.

use vstd::prelude::*;
use crate::error::Error;
use crate::persistence::{fresh_meta, recovered_terminal, SessionMeta, SessionMetaView};
use crate::protocol::{status_event, CreateSessionRequest, DaemonEvent};
use crate::text::{concat, str_eq};
use crate::time::Timestamp;
use crate::types::{
    copy_opt_string, AgentStatus, CommandSpec, TerminalInfo, TerminalInfoView, TerminalStatus,
};

verus! {

/// One registered session with the handles it owns.
pub struct SessionEntry<P, R, D> {
    pub terminal: TerminalInfo,
    pub pty: Option<P>,
    pub reader: Option<R>,
    pub persistence: D,
    pub cols: u16,
    pub rows: u16,
}

/// What the registry knows of one session.
pub struct EntryView {
    pub terminal: TerminalInfoView,
    pub has_pty: bool,
    pub has_reader: bool,
    pub cols: u16,
    pub rows: u16,
}

impl<P, R, D> View for SessionEntry<P, R, D> {
    type V = EntryView;

    open spec fn view(&self) -> EntryView {
        EntryView {
            terminal: self.terminal@,
            has_pty: self.pty is Some,
            has_reader: self.reader is Some,
            cols: self.cols,
            rows: self.rows,
        }
    }
}

/// A session's handles agree with its status.
pub open spec fn handles_follow_status(e: EntryView) -> bool {
    &&& (e.terminal.status == TerminalStatus::Running || e.terminal.status
        == TerminalStatus::Starting) ==> e.has_pty && e.has_reader
    &&& e.terminal.status == TerminalStatus::Stopped ==> !e.has_pty && !e.has_reader
}

/// No two sessions share an id.
pub open spec fn ids_unique(v: Seq<EntryView>) -> bool {
    forall|i: int, j: int|
        0 <= i < v.len() && 0 <= j < v.len() && i != j ==> #[trigger] v[i].terminal.id
            != #[trigger] v[j].terminal.id
}

/// The invariant of the registry: one session per id, and every session's
/// handles agree with its status.
pub open spec fn registry_consistent(v: Seq<EntryView>) -> bool {
    &&& ids_unique(v)
    &&& forall|i: int| 0 <= i < v.len() ==> handles_follow_status(#[trigger] v[i])
}

/// Whether a session with this id is registered.
pub open spec fn has_session(v: Seq<EntryView>, id: Seq<char>) -> bool {
    exists|i: int| 0 <= i < v.len() && #[trigger] v[i].terminal.id == id
}

/// The position of the session with this id.
pub open spec fn index_of(v: Seq<EntryView>, id: Seq<char>) -> int {
    choose|i: int| 0 <= i < v.len() && #[trigger] v[i].terminal.id == id
}

/// The session with this id.
pub open spec fn session(v: Seq<EntryView>, id: Seq<char>) -> EntryView {
    v[index_of(v, id)]
}

/// A record with another status.
pub open spec fn with_status(t: TerminalInfoView, s: TerminalStatus) -> TerminalInfoView {
    TerminalInfoView { status: s, ..t }
}

/// A session after it stopped: stopped, without terminal or reader.
pub open spec fn stopped(e: EntryView) -> EntryView {
    EntryView {
        terminal: with_status(e.terminal, TerminalStatus::Stopped),
        has_pty: false,
        has_reader: false,
        ..e
    }
}

/// A session running on a freshly spawned terminal and reader.
pub open spec fn running(e: EntryView) -> EntryView {
    EntryView {
        terminal: with_status(e.terminal, TerminalStatus::Running),
        has_pty: true,
        has_reader: true,
        ..e
    }
}

/// A session between the two phases of a restart: its old terminal and
/// reader are released, its shell and creation time renewed.
pub open spec fn restarting(e: EntryView, shell: Seq<char>, now: Timestamp) -> EntryView {
    EntryView {
        terminal: TerminalInfoView {
            shell: Some(shell),
            status: TerminalStatus::Stopped,
            created_at: now,
            ..e.terminal
        },
        has_pty: false,
        has_reader: false,
        ..e
    }
}

/// A session between the two phases of an agent switch: as for a restart,
/// and with the new agent and command.
pub open spec fn switching(
    e: EntryView,
    client_id: Seq<char>,
    command: crate::types::CommandSpecView,
    shell: Seq<char>,
    now: Timestamp,
) -> EntryView {
    EntryView {
        terminal: TerminalInfoView {
            client_id: client_id,
            command: command,
            ..restarting(e, shell, now).terminal
        },
        ..restarting(e, shell, now)
    }
}

/// The event that announces the status of a record.
pub open spec fn is_status_event(ev: DaemonEvent, t: TerminalInfoView) -> bool {
    ev matches DaemonEvent::TerminalStatus { terminal_id, project_id, status }
        && terminal_id@ == t.id && project_id@ == t.project_id && status == t.status
}

/// The record of a new session, before its terminal runs.
pub open spec fn requested_terminal(
    req: CreateSessionRequest,
    shell: Seq<char>,
    now: Timestamp,
) -> TerminalInfoView {
    TerminalInfoView {
        id: req.terminal_id@,
        project_id: req.project_id@,
        name: req.name@,
        client_id: req.client_id@,
        working_dir: req.working_dir@,
        branch: crate::types::opt_view(req.branch),
        worktree_path: crate::types::opt_view(req.worktree_path),
        status: TerminalStatus::Starting,
        created_at: now,
        command: req.command@,
        shell: Some(shell),
        agent_status: AgentStatus::Idle,
        mode: req.mode,
        is_main: req.is_main,
        folder_path: crate::types::opt_view(req.folder_path),
    }
}

/// The record of a new session built from the client's request, the shell it
/// will run in and the time of creation.
pub fn terminal_from_request(req: &CreateSessionRequest, shell: &str, now: Timestamp) -> (r:
    TerminalInfo)
    ensures
        r@ == requested_terminal(*req, shell@, now),
{
    TerminalInfo {
        id: req.terminal_id.clone(),
        project_id: req.project_id.clone(),
        name: req.name.clone(),
        client_id: req.client_id.clone(),
        working_dir: req.working_dir.clone(),
        branch: copy_opt_string(&req.branch),
        worktree_path: copy_opt_string(&req.worktree_path),
        status: TerminalStatus::Starting,
        created_at: now,
        command: req.command.copy(),
        shell: Some(crate::text::owned(shell)),
        agent_status: AgentStatus::Idle,
        mode: req.mode,
        is_main: req.is_main,
        folder_path: copy_opt_string(&req.folder_path),
    }
}

/// The record of a new session created now.
pub fn new_terminal(req: &CreateSessionRequest, shell: &str) -> (r: TerminalInfo)
    ensures
        exists|now: Timestamp| r@ == #[trigger] requested_terminal(*req, shell@, now),
{
    let now = crate::time::now();
    terminal_from_request(req, shell, now)
}

/// A session taken out of the registry by a close.
pub struct ClosedSession<P, R, D> {
    pub terminal: TerminalInfo,
    pub pty: Option<P>,
    pub reader: Option<R>,
    pub persistence: D,
    pub event: DaemonEvent,
}

/// What a stop releases: the terminal and reader, and the status event.
pub struct StopOutcome<P, R> {
    pub status: TerminalStatus,
    pub pty: Option<P>,
    pub reader: Option<R>,
    pub event: DaemonEvent,
}

/// The first phase of a restart or switch: the released handles, the record
/// to spawn for, and the metadata that starts the scrollback afresh.
pub struct Respawn<P, R> {
    pub terminal: TerminalInfo,
    pub meta: SessionMeta,
    pub pty: Option<P>,
    pub reader: Option<R>,
    pub cols: u16,
    pub rows: u16,
}

/// The registry of sessions.
pub struct SessionRegistry<P, R, D> {
    entries: Vec<SessionEntry<P, R, D>>,
}

impl<P, R, D> View for SessionRegistry<P, R, D> {
    type V = Seq<EntryView>;

    closed spec fn view(&self) -> Seq<EntryView> {
        views(self.entries@)
    }
}

/// What the registry knows of a list of entries.
pub open spec fn views<P, R, D>(s: Seq<SessionEntry<P, R, D>>) -> Seq<EntryView> {
    s.map_values(|e: SessionEntry<P, R, D>| e@)
}

proof fn lemma_views_replace<P, R, D>(s: Seq<SessionEntry<P, R, D>>, i: int, e: SessionEntry<P, R, D>)
    requires
        0 <= i < s.len(),
    ensures
        views(s.remove(i).insert(i, e)) == views(s).update(i, e@),
{
    assert(views(s.remove(i).insert(i, e)) =~= views(s).update(i, e@));
}

proof fn lemma_views_remove<P, R, D>(s: Seq<SessionEntry<P, R, D>>, i: int)
    requires
        0 <= i < s.len(),
    ensures
        views(s.remove(i)) == views(s).remove(i),
{
    assert(views(s.remove(i)) =~= views(s).remove(i));
}

proof fn lemma_views_push<P, R, D>(s: Seq<SessionEntry<P, R, D>>, e: SessionEntry<P, R, D>)
    ensures
        views(s.push(e)) == views(s).push(e@),
{
    assert(views(s.push(e)) =~= views(s).push(e@));
}

/// Replacing a session by one with the same id and agreeing handles keeps the
/// registry consistent.
proof fn lemma_update_consistent(v: Seq<EntryView>, i: int, e: EntryView)
    requires
        registry_consistent(v),
        0 <= i < v.len(),
        e.terminal.id == v[i].terminal.id,
        handles_follow_status(e),
    ensures
        registry_consistent(v.update(i, e)),
{
    let w = v.update(i, e);
    assert forall|a: int, b: int|
        0 <= a < w.len() && 0 <= b < w.len() && a != b implies #[trigger] w[a].terminal.id
        != #[trigger] w[b].terminal.id by {
        assert(v[a].terminal.id != v[b].terminal.id);
    }
    assert forall|a: int| 0 <= a < w.len() implies handles_follow_status(#[trigger] w[a]) by {
        if a != i {
            assert(handles_follow_status(v[a]));
        }
    }
}

/// Adding a session under a new id, with handles that agree with its status,
/// keeps the registry consistent.
proof fn lemma_push_consistent(v: Seq<EntryView>, e: EntryView)
    requires
        registry_consistent(v),
        !has_session(v, e.terminal.id),
        handles_follow_status(e),
    ensures
        registry_consistent(v.push(e)),
{
    let w = v.push(e);
    assert forall|a: int, b: int|
        0 <= a < w.len() && 0 <= b < w.len() && a != b implies #[trigger] w[a].terminal.id
        != #[trigger] w[b].terminal.id by {
        if a < v.len() && b < v.len() {
            assert(w[a] == v[a] && w[b] == v[b]);
        } else if a < v.len() {
            assert(w[a] == v[a]);
        } else {
            assert(w[b] == v[b]);
        }
    }
    assert forall|a: int| 0 <= a < w.len() implies handles_follow_status(#[trigger] w[a]) by {
        if a < v.len() {
            assert(w[a] == v[a]);
        }
    }
}

/// Taking a session out keeps the registry consistent, and its id is then
/// unknown.
proof fn lemma_remove_consistent(v: Seq<EntryView>, i: int)
    requires
        registry_consistent(v),
        0 <= i < v.len(),
    ensures
        registry_consistent(v.remove(i)),
        !has_session(v.remove(i), v[i].terminal.id),
{
    let w = v.remove(i);
    assert forall|a: int, b: int|
        0 <= a < w.len() && 0 <= b < w.len() && a != b implies #[trigger] w[a].terminal.id
        != #[trigger] w[b].terminal.id by {
        let a2 = if a < i { a } else { a + 1 };
        let b2 = if b < i { b } else { b + 1 };
        assert(w[a] == v[a2] && w[b] == v[b2]);
        assert(v[a2].terminal.id != v[b2].terminal.id);
    }
    assert forall|a: int| 0 <= a < w.len() implies handles_follow_status(#[trigger] w[a]) by {
        let a2 = if a < i { a } else { a + 1 };
        assert(w[a] == v[a2]);
        assert(handles_follow_status(v[a2]));
    }
    if has_session(w, v[i].terminal.id) {
        let a = choose|a: int| 0 <= a < w.len() && #[trigger] w[a].terminal.id == v[i].terminal.id;
        let a2 = if a < i { a } else { a + 1 };
        assert(w[a] == v[a2]);
        assert(v[a2].terminal.id != v[i].terminal.id);
    }
}

/// A closed session is gone: looking it up afterwards finds nothing.
pub proof fn lemma_closed_session_not_found(v: Seq<EntryView>, id: Seq<char>)
    requires
        registry_consistent(v),
        has_session(v, id),
    ensures
        !has_session(v.remove(index_of(v, id)), id),
        registry_consistent(v.remove(index_of(v, id))),
{
    lemma_remove_consistent(v, index_of(v, id));
}

/// Two registrations of one new id: the first is accepted, the second refused,
/// and exactly one session with that id remains.
pub proof fn lemma_duplicate_create_refused(v: Seq<EntryView>, first: EntryView, second: EntryView)
    requires
        registry_consistent(v),
        !has_session(v, first.terminal.id),
        second.terminal.id == first.terminal.id,
    ensures
        has_session(v.push(first), second.terminal.id),
        forall|i: int|
            0 <= i < v.push(first).len() ==> (#[trigger] v.push(first)[i].terminal.id
                == first.terminal.id <==> i == v.len()),
{
    let w = v.push(first);
    assert(w[v.len() as int].terminal.id == first.terminal.id);
    assert forall|i: int| 0 <= i < w.len() implies (#[trigger] w[i].terminal.id == first.terminal.id
        <==> i == v.len()) by {
        if i < v.len() {
            assert(w[i] == v[i]);
            if v[i].terminal.id == first.terminal.id {
                assert(has_session(v, first.terminal.id));
            }
        }
    }
}

/// In a registry with unique ids, the session found at a position is the one
/// that its id names.
pub proof fn lemma_index_of_unique(v: Seq<EntryView>, i: int)
    requires
        ids_unique(v),
        0 <= i < v.len(),
    ensures
        has_session(v, v[i].terminal.id),
        index_of(v, v[i].terminal.id) == i,
{
    let id = v[i].terminal.id;
    assert(v[i].terminal.id == id);
    let j = index_of(v, id);
    assert(v[j].terminal.id == id);
}

impl<P, R, D> SessionRegistry<P, R, D> {
    #[verifier::type_invariant]
    spec fn inv(&self) -> bool {
        registry_consistent(self@)
    }

    /// An empty registry.
    pub fn new() -> (r: Self)
        ensures
            r@ == Seq::<EntryView>::empty(),
            registry_consistent(r@),
    {
        let r = SessionRegistry { entries: Vec::new() };
        assert(r@ =~= Seq::<EntryView>::empty());
        r
    }

    /// The number of sessions.
    pub fn len(&self) -> (r: usize)
        ensures
            r == self@.len(),
            registry_consistent(self@),
    {
        proof {
            use_type_invariant(self);
        }
        self.entries.len()
    }

    fn find(&self, id: &str) -> (r: Option<usize>)
        ensures
            r matches Some(i) ==> i < self@.len() && self@[i as int].terminal.id == id@
                && index_of(self@, id@) == i && has_session(self@, id@),
            r is None ==> !has_session(self@, id@),
    {
        proof {
            use_type_invariant(self);
        }
        let mut i: usize = 0;
        while i < self.entries.len()
            invariant
                i <= self@.len(),
                self@.len() == self.entries@.len(),
                registry_consistent(self@),
                forall|j: int| 0 <= j < i ==> self@[j].terminal.id != id@,
            decreases self.entries@.len() - i,
        {
            assert(self@[i as int] == self.entries@[i as int]@);
            if str_eq(self.entries[i].terminal.id.as_str(), id) {
                proof {
                    lemma_index_of_unique(self@, i as int);
                }
                return Some(i);
            }
            i += 1;
        }
        None
    }

    /// Whether a session with this id is registered.
    pub fn contains_session(&self, id: &str) -> (r: bool)
        ensures
            r == has_session(self@, id@),
            registry_consistent(self@),
    {
        proof {
            use_type_invariant(self);
        }
        self.find(id).is_some()
    }

    /// Copies of every session record, in registry order.
    pub fn list_sessions(&self) -> (r: Vec<TerminalInfo>)
        ensures
            r@.len() == self@.len(),
            forall|i: int| 0 <= i < r@.len() ==> (#[trigger] r@[i])@ == self@[i].terminal,
            registry_consistent(self@),
    {
        proof {
            use_type_invariant(self);
        }
        let mut out: Vec<TerminalInfo> = Vec::new();
        let mut i: usize = 0;
        while i < self.entries.len()
            invariant
                i <= self@.len(),
                self@.len() == self.entries@.len(),
                out@.len() == i,
                forall|j: int| 0 <= j < i ==> (#[trigger] out@[j])@ == self@[j].terminal,
            decreases self.entries@.len() - i,
        {
            assert(self@[i as int] == self.entries@[i as int]@);
            out.push(self.entries[i].terminal.copy());
            i += 1;
        }
        out
    }

    /// A copy of the record of one session.
    pub fn get_session(&self, id: &str) -> (r: Result<TerminalInfo, Error>)
        ensures
            r is Ok <==> has_session(self@, id@),
            r matches Ok(t) ==> t@ == session(self@, id@).terminal,
            r matches Err(e) ==> e matches Error::TerminalNotFound(m) && m@ == id@,
            registry_consistent(self@),
    {
        proof {
            use_type_invariant(self);
        }
        match self.find(id) {
            Some(i) => {
                assert(self@[i as int] == self.entries@[i as int]@);
                Ok(self.entries[i].terminal.copy())
            },
            None => Err(Error::TerminalNotFound(crate::text::owned(id))),
        }
    }

    /// The terminal handle of a running session, for writing or resizing.
    pub fn pty_handle(&self, id: &str) -> (r: Result<&P, Error>)
        ensures
            r is Ok <==> has_session(self@, id@) && session(self@, id@).has_pty,
            !has_session(self@, id@) ==> (r matches Err(e) && e matches Error::TerminalNotFound(
                m,
            ) && m@ == id@),
            has_session(self@, id@) && !session(self@, id@).has_pty ==> (r matches Err(e)
                && e matches Error::TerminalError(m) && m@ == "Terminal PTY is not running"@),
    {
        match self.find(id) {
            Some(i) => {
                assert(self@[i as int] == self.entries@[i as int]@);
                match &self.entries[i].pty {
                    Some(p) => Ok(p),
                    None => Err(Error::TerminalError(crate::text::owned("Terminal PTY is not running"))),
                }
            },
            None => Err(Error::TerminalNotFound(crate::text::owned(id))),
        }
    }

    /// The persistence handle of a session.
    pub fn persistence(&self, id: &str) -> (r: Result<&D, Error>)
        ensures
            r is Ok <==> has_session(self@, id@),
            r matches Err(e) ==> e matches Error::TerminalNotFound(m) && m@ == id@,
    {
        match self.find(id) {
            Some(i) => Ok(&self.entries[i].persistence),
            None => Err(Error::TerminalNotFound(crate::text::owned(id))),
        }
    }

    /// Registers a new session whose terminal and reader are running.
    /// A session whose id is taken is refused: the registry is left as it was.
    pub fn insert_session(
        &mut self,
        terminal: TerminalInfo,
        pty: P,
        reader: R,
        persistence: D,
        cols: u16,
        rows: u16,
    ) -> (r: Result<TerminalInfo, Error>)
        ensures
            r is Ok <==> !has_session(old(self)@, terminal.id@),
            r matches Ok(t) ==> t@ == with_status(terminal@, TerminalStatus::Running)
                && final(self)@ == old(self)@.push(
                running(EntryView { terminal: terminal@, has_pty: true, has_reader: true, cols, rows }),
            ),
            r matches Err(e) ==> e matches Error::InvalidRequest(m) && m@ == "Terminal already exists: "@
                + terminal.id@ && final(self)@ == old(self)@,
            registry_consistent(final(self)@),
    {
        proof {
            use_type_invariant(&*self);
        }
        if self.find(terminal.id.as_str()).is_some() {
            return Err(
                Error::InvalidRequest(concat("Terminal already exists: ", terminal.id.as_str())),
            );
        }
        let mut t = terminal;
        t.status = TerminalStatus::Running;
        let info = t.copy();
        let entry = SessionEntry { terminal: t, pty: Some(pty), reader: Some(reader), persistence, cols, rows };
        let mut entries = Vec::new();
        std::mem::swap(&mut entries, &mut self.entries);
        let ghost before = entries@;
        entries.push(entry);
        proof {
            lemma_views_push(before, entry);
            lemma_push_consistent(views(before), entry@);
        }
        self.entries = entries;
        Ok(info)
    }

    fn take_out(&mut self, i: usize) -> (r: (Vec<SessionEntry<P, R, D>>, SessionEntry<P, R, D>))
        requires
            i < old(self)@.len(),
        ensures
            final(self)@ == Seq::<EntryView>::empty(),
            r.0@ == old(self).entries@.remove(i as int),
            r.1 == old(self).entries@[i as int],
            registry_consistent(old(self)@),
    {
        proof {
            use_type_invariant(&*self);
        }
        let mut entries = Vec::new();
        std::mem::swap(&mut entries, &mut self.entries);
        proof {
            assert(self@ =~= Seq::<EntryView>::empty());
        }
        let e = entries.remove(i);
        (entries, e)
    }

    fn put_in(&mut self, entries: Vec<SessionEntry<P, R, D>>, i: usize, e: SessionEntry<P, R, D>)
        requires
            old(self)@ == Seq::<EntryView>::empty(),
            i <= entries@.len(),
            registry_consistent(views(entries@.insert(i as int, e))),
        ensures
            final(self)@ == views(entries@.insert(i as int, e)),
    {
        let mut entries = entries;
        entries.insert(i, e);
        self.entries = entries;
    }

    fn stop_at(&mut self, i: usize) -> (r: StopOutcome<P, R>)
        requires
            i < old(self)@.len(),
        ensures
            final(self)@ == old(self)@.update(i as int, stopped(old(self)@[i as int])),
            r.status == TerminalStatus::Stopped,
            is_status_event(r.event, stopped(old(self)@[i as int]).terminal),
            registry_consistent(final(self)@),
    {
        let ghost orig = self.entries@;
        let (entries, mut e) = self.take_out(i);
        let mut pty = None;
        std::mem::swap(&mut pty, &mut e.pty);
        let mut reader = None;
        std::mem::swap(&mut reader, &mut e.reader);
        e.terminal.status = TerminalStatus::Stopped;
        let event = status_event(&e.terminal);
        proof {
            lemma_views_replace(orig, i as int, e);
            assert(e@ == stopped(views(orig)[i as int]));
            lemma_update_consistent(views(orig), i as int, e@);
        }
        self.put_in(entries, i, e);
        StopOutcome { status: TerminalStatus::Stopped, pty, reader, event }
    }

    /// Removes a session. Its record comes back marked stopped, with the
    /// handles for the caller to release and the status event to announce.
    pub fn close_session(&mut self, id: &str) -> (r: Result<ClosedSession<P, R, D>, Error>)
        ensures
            r is Ok <==> has_session(old(self)@, id@),
            r matches Ok(c) ==> c.terminal@ == with_status(
                session(old(self)@, id@).terminal,
                TerminalStatus::Stopped,
            ) && is_status_event(c.event, c.terminal@) && final(self)@ == old(self)@.remove(
                index_of(old(self)@, id@),
            ),
            r matches Err(e) ==> e matches Error::TerminalNotFound(m) && m@ == id@ && final(self)@ == old(self)@,
            registry_consistent(final(self)@),
    {
        proof {
            use_type_invariant(&*self);
        }
        let i = match self.find(id) {
            Some(i) => i,
            None => {
                return Err(Error::TerminalNotFound(crate::text::owned(id)));
            },
        };
        let ghost orig = self.entries@;
        let (entries, e) = self.take_out(i);
        proof {
            lemma_views_remove(orig, i as int);
            lemma_remove_consistent(views(orig), i as int);
        }
        self.entries = entries;
        let mut t = e.terminal;
        t.status = TerminalStatus::Stopped;
        let event = status_event(&t);
        Ok(ClosedSession { terminal: t, pty: e.pty, reader: e.reader, persistence: e.persistence, event })
    }

    /// Removes a session at a client's request. The main session of a
    /// project cannot be closed this way and is refused, left as it was.
    pub fn close_terminal(&mut self, id: &str) -> (r: Result<ClosedSession<P, R, D>, Error>)
        ensures
            r is Ok <==> has_session(old(self)@, id@) && !session(old(self)@, id@).terminal.is_main,
            has_session(old(self)@, id@) && session(old(self)@, id@).terminal.is_main ==> (r matches Err(
                e,
            ) && e matches Error::InvalidRequest(m) && m@ == "Cannot close the main terminal"@),
            r matches Ok(c) ==> c.terminal@ == with_status(
                session(old(self)@, id@).terminal,
                TerminalStatus::Stopped,
            ) && is_status_event(c.event, c.terminal@) && final(self)@ == old(self)@.remove(
                index_of(old(self)@, id@),
            ),
            !has_session(old(self)@, id@) ==> (r matches Err(e) && e matches Error::TerminalNotFound(m)
                && m@ == id@),
            r is Err ==> final(self)@ == old(self)@,
            registry_consistent(final(self)@),
    {
        proof {
            use_type_invariant(&*self);
        }
        match self.find(id) {
            Some(i) => {
                assert(self@[i as int] == self.entries@[i as int]@);
                if self.entries[i].terminal.is_main {
                    return Err(
                        Error::InvalidRequest(crate::text::owned("Cannot close the main terminal")),
                    );
                }
            },
            None => {},
        }
        self.close_session(id)
    }

    /// Marks a session stopped: its terminal and reader are released and its
    /// record kept.
    pub fn mark_session_stopped(&mut self, id: &str) -> (r: Result<StopOutcome<P, R>, Error>)
        ensures
            r is Ok <==> has_session(old(self)@, id@),
            r matches Ok(o) ==> o.status == TerminalStatus::Stopped && final(self)@ == old(self)@.update(index_of(old(self)@, id@), stopped(session(old(self)@, id@)))
                && is_status_event(o.event, stopped(session(old(self)@, id@)).terminal),
            r matches Err(e) ==> e matches Error::TerminalNotFound(m) && m@ == id@ && final(self)@ == old(self)@,
            registry_consistent(final(self)@),
    {
        proof {
            use_type_invariant(&*self);
        }
        match self.find(id) {
            Some(i) => Ok(self.stop_at(i)),
            None => Err(Error::TerminalNotFound(crate::text::owned(id))),
        }
    }

    /// Records that a session's reader ended on its own (end of output or a
    /// read error): the session, if still registered, is marked stopped.
    pub fn reader_exited(&mut self, id: &str) -> (r: Option<StopOutcome<P, R>>)
        ensures
            r is Some <==> has_session(old(self)@, id@),
            r matches Some(o) ==> final(self)@ == old(self)@.update(
                index_of(old(self)@, id@),
                stopped(session(old(self)@, id@)),
            ) && is_status_event(o.event, stopped(session(old(self)@, id@)).terminal),
            r is None ==> final(self)@ == old(self)@,
            registry_consistent(final(self)@),
    {
        proof {
            use_type_invariant(&*self);
        }
        match self.find(id) {
            Some(i) => Some(self.stop_at(i)),
            None => None,
        }
    }

    /// Records the agent status that a hook reported; unknown ids are ignored.
    pub fn update_agent_status(&mut self, id: &str, status: AgentStatus)
        ensures
            has_session(old(self)@, id@) ==> final(self)@ == old(self)@.update(
                index_of(old(self)@, id@),
                EntryView {
                    terminal: TerminalInfoView {
                        agent_status: status,
                        ..session(old(self)@, id@).terminal
                    },
                    ..session(old(self)@, id@)
                },
            ),
            !has_session(old(self)@, id@) ==> final(self)@ == old(self)@,
            registry_consistent(final(self)@),
    {
        proof {
            use_type_invariant(&*self);
        }
        match self.find(id) {
            Some(i) => {
                let ghost orig = self.entries@;
                let (entries, mut e) = self.take_out(i);
                e.terminal.agent_status = status;
                proof {
                    lemma_views_replace(orig, i as int, e);
                    lemma_update_consistent(views(orig), i as int, e@);
                }
                self.put_in(entries, i, e);
            },
            None => {},
        }
    }

    /// Records a session's new terminal size; unknown ids are ignored.
    pub fn set_size(&mut self, id: &str, cols: u16, rows: u16)
        ensures
            has_session(old(self)@, id@) ==> final(self)@ == old(self)@.update(
                index_of(old(self)@, id@),
                EntryView { cols: cols, rows: rows, ..session(old(self)@, id@) },
            ),
            !has_session(old(self)@, id@) ==> final(self)@ == old(self)@,
            registry_consistent(final(self)@),
    {
        proof {
            use_type_invariant(&*self);
        }
        match self.find(id) {
            Some(i) => {
                let ghost orig = self.entries@;
                let (entries, mut e) = self.take_out(i);
                e.cols = cols;
                e.rows = rows;
                proof {
                    lemma_views_replace(orig, i as int, e);
                    lemma_update_consistent(views(orig), i as int, e@);
                }
                self.put_in(entries, i, e);
            },
            None => {},
        }
    }

    /// The first phase of a restart: releases the session's terminal and
    /// reader, renews its shell and creation time, and hands back what the
    /// new terminal is spawned for, with the metadata that starts its
    /// scrollback afresh.
    pub fn begin_restart(&mut self, id: &str, shell: String, now: Timestamp) -> (r: Result<
        Respawn<P, R>,
        Error,
    >)
        ensures
            r is Ok <==> has_session(old(self)@, id@),
            r matches Ok(x) ==> {
                let e = restarting(session(old(self)@, id@), shell@, now);
                &&& final(self)@ == old(self)@.update(index_of(old(self)@, id@), e)
                &&& x.terminal@ == e.terminal
                &&& x.cols == e.cols && x.rows == e.rows
                &&& x.meta@ == fresh_meta(e.terminal, e.cols, e.rows)
            },
            r matches Err(e) ==> e matches Error::TerminalNotFound(m) && m@ == id@ && final(self)@
                == old(self)@,
            registry_consistent(final(self)@),
    {
        proof {
            use_type_invariant(&*self);
        }
        let i = match self.find(id) {
            Some(i) => i,
            None => {
                return Err(Error::TerminalNotFound(crate::text::owned(id)));
            },
        };
        let ghost orig = self.entries@;
        let (entries, mut e) = self.take_out(i);
        let mut pty = None;
        std::mem::swap(&mut pty, &mut e.pty);
        let mut reader = None;
        std::mem::swap(&mut reader, &mut e.reader);
        e.terminal.shell = Some(shell);
        e.terminal.status = TerminalStatus::Stopped;
        e.terminal.created_at = now;
        let terminal = e.terminal.copy();
        let meta = SessionMeta::for_terminal(&terminal, e.cols, e.rows);
        let cols = e.cols;
        let rows = e.rows;
        proof {
            lemma_views_replace(orig, i as int, e);
            lemma_update_consistent(views(orig), i as int, e@);
        }
        self.put_in(entries, i, e);
        Ok(Respawn { terminal, meta, pty, reader, cols, rows })
    }

    /// The first phase of an agent switch: as the first phase of a restart,
    /// and the session takes the new agent and command.
    pub fn begin_switch(
        &mut self,
        id: &str,
        client_id: String,
        command: CommandSpec,
        shell: String,
        now: Timestamp,
    ) -> (r: Result<Respawn<P, R>, Error>)
        ensures
            r is Ok <==> has_session(old(self)@, id@),
            r matches Ok(x) ==> {
                let e = switching(session(old(self)@, id@), client_id@, command@, shell@, now);
                &&& final(self)@ == old(self)@.update(index_of(old(self)@, id@), e)
                &&& x.terminal@ == e.terminal
                &&& x.cols == e.cols && x.rows == e.rows
                &&& x.meta@ == fresh_meta(e.terminal, e.cols, e.rows)
            },
            r matches Err(e) ==> e matches Error::TerminalNotFound(m) && m@ == id@ && final(self)@
                == old(self)@,
            registry_consistent(final(self)@),
    {
        proof {
            use_type_invariant(&*self);
        }
        let i = match self.find(id) {
            Some(i) => i,
            None => {
                return Err(Error::TerminalNotFound(crate::text::owned(id)));
            },
        };
        let ghost orig = self.entries@;
        let (entries, mut e) = self.take_out(i);
        let mut pty = None;
        std::mem::swap(&mut pty, &mut e.pty);
        let mut reader = None;
        std::mem::swap(&mut reader, &mut e.reader);
        e.terminal.client_id = client_id;
        e.terminal.command = command;
        e.terminal.shell = Some(shell);
        e.terminal.status = TerminalStatus::Stopped;
        e.terminal.created_at = now;
        let terminal = e.terminal.copy();
        let meta = SessionMeta::for_terminal(&terminal, e.cols, e.rows);
        let cols = e.cols;
        let rows = e.rows;
        proof {
            lemma_views_replace(orig, i as int, e);
            lemma_update_consistent(views(orig), i as int, e@);
        }
        self.put_in(entries, i, e);
        Ok(Respawn { terminal, meta, pty, reader, cols, rows })
    }

    fn install_handles(&mut self, id: &str, pty: P, reader: R, idle: bool) -> (r: Result<
        TerminalInfo,
        Error,
    >)
        ensures
            r is Ok <==> has_session(old(self)@, id@),
            r matches Ok(t) ==> {
                let e = running(session(old(self)@, id@));
                let e2 = if idle {
                    EntryView {
                        terminal: TerminalInfoView { agent_status: AgentStatus::Idle, ..e.terminal },
                        ..e
                    }
                } else {
                    e
                };
                &&& final(self)@ == old(self)@.update(index_of(old(self)@, id@), e2)
                &&& t@ == e2.terminal
            },
            r matches Err(e) ==> e matches Error::TerminalNotFound(m) && m@ == id@ && final(self)@
                == old(self)@,
            registry_consistent(final(self)@),
    {
        proof {
            use_type_invariant(&*self);
        }
        let i = match self.find(id) {
            Some(i) => i,
            None => {
                return Err(Error::TerminalNotFound(crate::text::owned(id)));
            },
        };
        let ghost orig = self.entries@;
        let (entries, mut e) = self.take_out(i);
        e.pty = Some(pty);
        e.reader = Some(reader);
        e.terminal.status = TerminalStatus::Running;
        if idle {
            e.terminal.agent_status = AgentStatus::Idle;
        }
        let info = e.terminal.copy();
        proof {
            lemma_views_replace(orig, i as int, e);
            lemma_update_consistent(views(orig), i as int, e@);
        }
        self.put_in(entries, i, e);
        Ok(info)
    }

    /// The second phase of a restart: the session runs on its new terminal
    /// and reader. A session that was closed meanwhile is not found.
    pub fn complete_restart(&mut self, id: &str, pty: P, reader: R) -> (r: Result<TerminalInfo, Error>)
        ensures
            r is Ok <==> has_session(old(self)@, id@),
            r matches Ok(t) ==> final(self)@ == old(self)@.update(
                index_of(old(self)@, id@),
                running(session(old(self)@, id@)),
            ) && t@ == running(session(old(self)@, id@)).terminal,
            r matches Err(e) ==> e matches Error::TerminalNotFound(m) && m@ == id@ && final(self)@
                == old(self)@,
            registry_consistent(final(self)@),
    {
        self.install_handles(id, pty, reader, false)
    }

    /// The second phase of an agent switch: the session runs on its new
    /// terminal and reader, and its agent starts idle.
    pub fn complete_switch(&mut self, id: &str, pty: P, reader: R) -> (r: Result<TerminalInfo, Error>)
        ensures
            r is Ok <==> has_session(old(self)@, id@),
            r matches Ok(t) ==> {
                let e = running(session(old(self)@, id@));
                let e2 = EntryView {
                    terminal: TerminalInfoView { agent_status: AgentStatus::Idle, ..e.terminal },
                    ..e
                };
                final(self)@ == old(self)@.update(index_of(old(self)@, id@), e2) && t@ == e2.terminal
            },
            r matches Err(e) ==> e matches Error::TerminalNotFound(m) && m@ == id@ && final(self)@
                == old(self)@,
            registry_consistent(final(self)@),
    {
        self.install_handles(id, pty, reader, true)
    }

    /// Installs a session recovered from disk: running when its terminal
    /// could be spawned again, stopped otherwise. A session already
    /// registered under the same id is replaced, and handed back.
    pub fn install_recovered(
        &mut self,
        terminal: TerminalInfo,
        spawned: Option<(P, R)>,
        persistence: D,
        cols: u16,
        rows: u16,
    ) -> (r: Option<SessionEntry<P, R, D>>)
        ensures
            ({
                let e = EntryView {
                    terminal: with_status(
                        terminal@,
                        if spawned is Some {
                            TerminalStatus::Running
                        } else {
                            TerminalStatus::Stopped
                        },
                    ),
                    has_pty: spawned is Some,
                    has_reader: spawned is Some,
                    cols: cols,
                    rows: rows,
                };
                if has_session(old(self)@, terminal.id@) {
                    final(self)@ == old(self)@.update(index_of(old(self)@, terminal.id@), e)
                        && r is Some
                } else {
                    final(self)@ == old(self)@.push(e) && r is None
                }
            }),
            registry_consistent(final(self)@),
    {
        proof {
            use_type_invariant(&*self);
        }
        let mut t = terminal;
        let (pty, reader) = match spawned {
            Some((p, rd)) => {
                t.status = TerminalStatus::Running;
                (Some(p), Some(rd))
            },
            None => {
                t.status = TerminalStatus::Stopped;
                (None, None)
            },
        };
        let found = self.find(t.id.as_str());
        let entry = SessionEntry { terminal: t, pty, reader, persistence, cols, rows };
        match found {
            Some(i) => {
                let ghost orig = self.entries@;
                let (entries, old_entry) = self.take_out(i);
                proof {
                    lemma_views_replace(orig, i as int, entry);
                    lemma_update_consistent(views(orig), i as int, entry@);
                }
                self.put_in(entries, i, entry);
                Some(old_entry)
            },
            None => {
                let mut entries = Vec::new();
                std::mem::swap(&mut entries, &mut self.entries);
                let ghost before = entries@;
                entries.push(entry);
                proof {
                    lemma_views_push(before, entry);
                    lemma_push_consistent(views(before), entry@);
                }
                self.entries = entries;
                None
            },
        }
    }

    /// Installs a session recovered from its persisted metadata, with the
    /// terminal and reader spawned for it if any. It runs only when it had
    /// not ended and was spawned; a session that had ended is installed
    /// stopped, and handles offered for it are handed back unused, as is a
    /// session it replaces under the same id.
    pub fn install_from_meta(
        &mut self,
        meta: &SessionMeta,
        spawned: Option<(P, R)>,
        persistence: D,
    ) -> (r: (Option<SessionEntry<P, R, D>>, Option<(P, R)>))
        ensures
            ({
                let runs = spawned is Some && meta.ended_at is None;
                let e = EntryView {
                    terminal: with_status(
                        recovered_terminal(meta@),
                        if runs {
                            TerminalStatus::Running
                        } else {
                            TerminalStatus::Stopped
                        },
                    ),
                    has_pty: runs,
                    has_reader: runs,
                    cols: meta.cols,
                    rows: meta.rows,
                };
                &&& if has_session(old(self)@, meta.terminal_id@) {
                    final(self)@ == old(self)@.update(index_of(old(self)@, meta.terminal_id@), e)
                } else {
                    final(self)@ == old(self)@.push(e)
                }
                &&& r.1 is Some <==> (spawned is Some && meta.ended_at is Some)
            }),
            registry_consistent(final(self)@),
    {
        let terminal = meta.recovered_terminal();
        if meta.should_respawn() {
            let replaced = self.install_recovered(terminal, spawned, persistence, meta.cols, meta.rows);
            (replaced, None)
        } else {
            let replaced = self.install_recovered(terminal, None, persistence, meta.cols, meta.rows);
            (replaced, spawned)
        }
    }
}

} // verus!
