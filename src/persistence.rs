//! What is persisted of a session: its metadata record, and the accounting
//! of its append-only scrollback with size-bounded rotation.

use vstd::prelude::*;
use vstd::utf8::valid_utf8;
use vstd::string::*;
use crate::time::Timestamp;
use crate::types::{
    copy_opt_string, opt_view, AgentStatus, CommandSpec, CommandSpecView, TerminalInfo,
    TerminalInfoView, TerminalMode, TerminalStatus,
};

verus! {

/// The metadata of a session as stored in its `meta.json`.
#[derive(Clone, Debug)]
pub struct SessionMeta {
    pub terminal_id: String,
    pub project_id: String,
    pub name: String,
    pub client_id: String,
    pub working_dir: String,
    pub branch: Option<String>,
    pub worktree_path: Option<String>,
    pub folder_path: Option<String>,
    pub is_main: bool,
    pub mode: TerminalMode,
    pub command: CommandSpec,
    pub shell: Option<String>,
    pub cols: u16,
    pub rows: u16,
    pub created_at: Timestamp,
    pub last_activity: Timestamp,
    pub ended_at: Option<Timestamp>,
    pub scrollback_bytes: usize,
}

/// The mathematical content of a `SessionMeta`.
pub struct SessionMetaView {
    pub terminal_id: Seq<char>,
    pub project_id: Seq<char>,
    pub name: Seq<char>,
    pub client_id: Seq<char>,
    pub working_dir: Seq<char>,
    pub branch: Option<Seq<char>>,
    pub worktree_path: Option<Seq<char>>,
    pub folder_path: Option<Seq<char>>,
    pub is_main: bool,
    pub mode: TerminalMode,
    pub command: CommandSpecView,
    pub shell: Option<Seq<char>>,
    pub cols: u16,
    pub rows: u16,
    pub created_at: Timestamp,
    pub last_activity: Timestamp,
    pub ended_at: Option<Timestamp>,
    pub scrollback_bytes: usize,
}

impl View for SessionMeta {
    type V = SessionMetaView;

    open spec fn view(&self) -> SessionMetaView {
        SessionMetaView {
            terminal_id: self.terminal_id@,
            project_id: self.project_id@,
            name: self.name@,
            client_id: self.client_id@,
            working_dir: self.working_dir@,
            branch: opt_view(self.branch),
            worktree_path: opt_view(self.worktree_path),
            folder_path: opt_view(self.folder_path),
            is_main: self.is_main,
            mode: self.mode,
            command: self.command@,
            shell: opt_view(self.shell),
            cols: self.cols,
            rows: self.rows,
            created_at: self.created_at,
            last_activity: self.last_activity,
            ended_at: self.ended_at,
            scrollback_bytes: self.scrollback_bytes,
        }
    }
}

/// The metadata that starts a fresh scrollback for a session record.
pub open spec fn fresh_meta(t: TerminalInfoView, cols: u16, rows: u16) -> SessionMetaView {
    SessionMetaView {
        terminal_id: t.id,
        project_id: t.project_id,
        name: t.name,
        client_id: t.client_id,
        working_dir: t.working_dir,
        branch: t.branch,
        worktree_path: t.worktree_path,
        folder_path: t.folder_path,
        is_main: t.is_main,
        mode: t.mode,
        command: t.command,
        shell: t.shell,
        cols: cols,
        rows: rows,
        created_at: t.created_at,
        last_activity: t.created_at,
        ended_at: None,
        scrollback_bytes: 0,
    }
}

/// The record of a session recovered from its metadata: stopped, with an
/// idle agent, everything else as persisted.
pub open spec fn recovered_terminal(m: SessionMetaView) -> TerminalInfoView {
    TerminalInfoView {
        id: m.terminal_id,
        project_id: m.project_id,
        name: m.name,
        client_id: m.client_id,
        working_dir: m.working_dir,
        branch: m.branch,
        worktree_path: m.worktree_path,
        status: TerminalStatus::Stopped,
        created_at: m.created_at,
        command: m.command,
        shell: m.shell,
        agent_status: AgentStatus::Idle,
        mode: m.mode,
        is_main: m.is_main,
        folder_path: m.folder_path,
    }
}

impl SessionMeta {
    /// The metadata written when a session's scrollback starts afresh
    /// (creation, restart, agent switch).
    pub fn for_terminal(t: &TerminalInfo, cols: u16, rows: u16) -> (r: SessionMeta)
        ensures
            r@ == fresh_meta(t@, cols, rows),
    {
        SessionMeta {
            terminal_id: t.id.clone(),
            project_id: t.project_id.clone(),
            name: t.name.clone(),
            client_id: t.client_id.clone(),
            working_dir: t.working_dir.clone(),
            branch: copy_opt_string(&t.branch),
            worktree_path: copy_opt_string(&t.worktree_path),
            folder_path: copy_opt_string(&t.folder_path),
            is_main: t.is_main,
            mode: t.mode,
            command: t.command.copy(),
            shell: copy_opt_string(&t.shell),
            cols,
            rows,
            created_at: t.created_at,
            last_activity: t.created_at,
            ended_at: None,
            scrollback_bytes: 0,
        }
    }

    /// The session record that recovery installs for this metadata.
    pub fn recovered_terminal(&self) -> (r: TerminalInfo)
        ensures
            r@ == recovered_terminal(self@),
    {
        TerminalInfo {
            id: self.terminal_id.clone(),
            project_id: self.project_id.clone(),
            name: self.name.clone(),
            client_id: self.client_id.clone(),
            working_dir: self.working_dir.clone(),
            branch: copy_opt_string(&self.branch),
            worktree_path: copy_opt_string(&self.worktree_path),
            status: TerminalStatus::Stopped,
            created_at: self.created_at,
            command: self.command.copy(),
            shell: copy_opt_string(&self.shell),
            agent_status: AgentStatus::Idle,
            mode: self.mode,
            is_main: self.is_main,
            folder_path: copy_opt_string(&self.folder_path),
        }
    }

    /// Whether recovery should start the session's command again: only a
    /// session that had not ended when the daemon went down.
    pub fn should_respawn(&self) -> (r: bool)
        ensures
            r == (self.ended_at is None),
    {
        self.ended_at.is_none()
    }

    /// Records the end of the session.
    pub fn mark_ended(&mut self, now: Timestamp)
        ensures
            final(self)@ == (SessionMetaView { ended_at: Some(now), ..old(self)@ }),
    {
        self.ended_at = Some(now);
    }

    /// Records the end of the session, now.
    pub fn mark_ended_now(&mut self)
        ensures
            final(self)@.ended_at is Some,
            final(self)@ == (SessionMetaView { ended_at: final(self)@.ended_at, ..old(self)@ }),
    {
        let now = crate::time::now();
        self.mark_ended(now);
    }

    /// Records output at the current time.
    pub fn record_activity_now(&mut self, scrollback_bytes: usize)
        ensures
            final(self)@ == (SessionMetaView {
                scrollback_bytes: scrollback_bytes,
                last_activity: final(self)@.last_activity,
                ..old(self)@
            }),
    {
        let now = crate::time::now();
        self.record_activity(scrollback_bytes, now);
    }

    /// Records output: the new scrollback size and the time of activity.
    pub fn record_activity(&mut self, scrollback_bytes: usize, now: Timestamp)
        ensures
            final(self)@ == (SessionMetaView {
                scrollback_bytes: scrollback_bytes,
                last_activity: now,
                ..old(self)@
            }),
    {
        self.scrollback_bytes = scrollback_bytes;
        self.last_activity = now;
    }

    /// Records a new terminal size.
    pub fn set_size(&mut self, cols: u16, rows: u16)
        ensures
            final(self)@ == (SessionMetaView { cols: cols, rows: rows, ..old(self)@ }),
    {
        self.cols = cols;
        self.rows = rows;
    }
}

/// A session that is persisted fresh and later recovered comes back with the
/// same identity, command, placement and creation time, stopped and idle.
pub proof fn lemma_recovery_restores_record(t: TerminalInfoView, cols: u16, rows: u16)
    ensures
        recovered_terminal(fresh_meta(t, cols, rows)) == (TerminalInfoView {
            status: TerminalStatus::Stopped,
            agent_status: AgentStatus::Idle,
            ..t
        }),
{
}


/// The size above which a session's scrollback is rotated.
pub const MAX_SCROLLBACK_BYTES: usize = 5 * 1024 * 1024;

/// How much of the scrollback's tail a rotation keeps.
pub const KEEP_AFTER_ROTATE: usize = 4 * 1024 * 1024;

/// How much output accumulates before the scrollback is flushed and the
/// metadata saved.
pub const FLUSH_EVERY_BYTES: usize = 4096;

/// Whether the bytes of `b` from `start` on are valid UTF-8.
/// Relies on `std::str::from_utf8`, which succeeds exactly on valid UTF-8.
#[verifier::external_body]
fn valid_utf8_from(b: &[u8], start: usize) -> (r: bool)
    requires
        start <= b@.len(),
    ensures
        r == valid_utf8(b@.subrange(start as int, b@.len() as int)),
{
    std::str::from_utf8(&b[start..]).is_ok()
}

/// The first of the offsets `from`, `from + 1`, ... below four from which
/// the rest of `b` is valid UTF-8; zero when there is none.
pub open spec fn utf8_start_from(b: Seq<u8>, from: int) -> int
    decreases 4 - from,
{
    if from >= 4 || from >= b.len() {
        0
    } else if valid_utf8(b.subrange(from, b.len() as int)) {
        from
    } else {
        utf8_start_from(b, from + 1)
    }
}

/// Where a UTF-8-safe cut of `b` starts: skip up to three bytes so that the
/// rest is valid UTF-8; keep all of `b` when no such cut exists.
pub open spec fn utf8_safe_start(b: Seq<u8>) -> int {
    utf8_start_from(b, 0)
}

proof fn lemma_utf8_start_bounds(b: Seq<u8>, from: int)
    requires
        0 <= from,
    ensures
        0 <= utf8_start_from(b, from) <= b.len(),
        utf8_start_from(b, from) < 4,
    decreases 4 - from,
{
    if from >= 4 || from >= b.len() {
    } else if valid_utf8(b.subrange(from, b.len() as int)) {
    } else {
        lemma_utf8_start_bounds(b, from + 1);
    }
}

/// The offset at which the UTF-8-safe part of `bytes` starts.
pub fn truncate_utf8_safe(bytes: &[u8]) -> (r: usize)
    ensures
        r == utf8_safe_start(bytes@),
        r <= bytes@.len(),
{
    let n = bytes.len();
    let mut i: usize = 0;
    while i < 4 && i < n
        invariant
            n == bytes@.len(),
            i <= 4,
            i <= n,
            utf8_start_from(bytes@, 0) == utf8_start_from(bytes@, i as int),
        decreases 4 - i,
    {
        if valid_utf8_from(bytes, i) {
            return i;
        }
        i += 1;
    }
    proof {
        lemma_utf8_start_bounds(bytes@, 0);
    }
    0
}

/// Where the kept tail of a scrollback starts before the UTF-8-safe cut.
pub open spec fn keep_from(len: int) -> int {
    if len > KEEP_AFTER_ROTATE { len - KEEP_AFTER_ROTATE } else { 0 }
}

/// What a rotation keeps of a scrollback: its last `KEEP_AFTER_ROTATE`
/// bytes, with up to three leading bytes dropped so that it starts on a
/// UTF-8 boundary where one can be found.
pub open spec fn rotated(content: Seq<u8>) -> Seq<u8> {
    let tail = content.subrange(keep_from(content.len() as int), content.len() as int);
    tail.subrange(utf8_safe_start(tail), tail.len() as int)
}

/// The bytes a rotation of `content` keeps.
pub fn rotated_scrollback(content: &[u8]) -> (r: Vec<u8>)
    ensures
        r@ == rotated(content@),
        r@.len() <= KEEP_AFTER_ROTATE,
{
    let n = content.len();
    let from: usize = if n > KEEP_AFTER_ROTATE { n - KEEP_AFTER_ROTATE } else { 0 };
    let tail = &content[from..n];
    let start = truncate_utf8_safe(tail);
    let mut out: Vec<u8> = Vec::new();
    let mut i: usize = start;
    while i < tail.len()
        invariant
            start <= i <= tail@.len(),
            tail@ == content@.subrange(from as int, n as int),
            out@ == tail@.subrange(start as int, i as int),
        decreases tail@.len() - i,
    {
        out.push(tail[i]);
        assert(out@ =~= tail@.subrange(start as int, i + 1));
        i += 1;
    }
    out
}

/// The scrollback size after one write of `incoming` bytes to a scrollback
/// of `written` bytes, where a rotation would keep `kept` bytes.
pub open spec fn size_after_write(written: int, incoming: int, kept: int) -> int {
    if written + incoming > MAX_SCROLLBACK_BYTES { kept + incoming } else { written + incoming }
}

/// The accounting of a session's scrollback file: its size, and the output
/// not yet flushed.
pub struct ScrollbackLog {
    bytes_written: usize,
    bytes_since_flush: usize,
}

impl ScrollbackLog {
    #[verifier::type_invariant]
    spec fn inv(&self) -> bool {
        self.bytes_since_flush < FLUSH_EVERY_BYTES
    }

    /// The size of the scrollback file.
    pub closed spec fn size(&self) -> int {
        self.bytes_written as int
    }

    /// The output appended since the last flush.
    pub closed spec fn pending(&self) -> int {
        self.bytes_since_flush as int
    }

    /// The accounting of a scrollback that starts empty.
    pub fn new() -> (r: Self)
        ensures
            r.size() == 0,
            r.pending() == 0,
    {
        ScrollbackLog { bytes_written: 0, bytes_since_flush: 0 }
    }

    /// The accounting of an existing scrollback of the persisted size.
    pub fn resume(scrollback_bytes: usize) -> (r: Self)
        ensures
            r.size() == scrollback_bytes,
            r.pending() == 0,
    {
        ScrollbackLog { bytes_written: scrollback_bytes, bytes_since_flush: 0 }
    }

    /// The size of the scrollback file.
    pub fn bytes_written(&self) -> (r: usize)
        ensures
            r == self.size(),
    {
        self.bytes_written
    }

    /// Starts the scrollback afresh.
    pub fn reset(&mut self)
        ensures
            final(self).size() == 0,
            final(self).pending() == 0,
    {
        *self = ScrollbackLog { bytes_written: 0, bytes_since_flush: 0 };
    }

    /// Whether `incoming` bytes can be counted without overflow.
    pub fn accepts(&self, incoming: usize) -> (r: bool)
        ensures
            r == (self.size() + incoming + FLUSH_EVERY_BYTES <= usize::MAX),
    {
        incoming <= usize::MAX - FLUSH_EVERY_BYTES && self.bytes_written <= usize::MAX - FLUSH_EVERY_BYTES
            - incoming
    }

    /// Whether the scrollback must be rotated before `incoming` bytes are
    /// appended: when it would grow past `MAX_SCROLLBACK_BYTES`.
    pub fn needs_rotation(&self, incoming: usize) -> (r: bool)
        ensures
            r == (self.size() + incoming > MAX_SCROLLBACK_BYTES),
    {
        incoming > MAX_SCROLLBACK_BYTES || self.bytes_written > MAX_SCROLLBACK_BYTES - incoming
    }

    /// Rotates: `content` is the scrollback as read back; the result is what
    /// the file holds from now on.
    pub fn rotate(&mut self, content: &[u8]) -> (r: Vec<u8>)
        ensures
            r@ == rotated(content@),
            final(self).size() == r@.len(),
            final(self).pending() == old(self).pending(),
            r@.len() <= KEEP_AFTER_ROTATE,
    {
        proof {
            use_type_invariant(&*self);
        }
        let kept = rotated_scrollback(content);
        *self = ScrollbackLog { bytes_written: kept.len(), bytes_since_flush: self.bytes_since_flush };
        kept
    }

    /// Counts `n` appended bytes, and tells whether the scrollback is now to
    /// be flushed and the metadata saved: each time `FLUSH_EVERY_BYTES` have
    /// accumulated.
    pub fn record_append(&mut self, n: usize) -> (flush: bool)
        requires
            old(self).size() + n + FLUSH_EVERY_BYTES <= usize::MAX,
        ensures
            final(self).size() == old(self).size() + n,
            flush == (old(self).pending() + n >= FLUSH_EVERY_BYTES),
            final(self).pending() == if flush { 0 } else { old(self).pending() + n },
            final(self).pending() < FLUSH_EVERY_BYTES,
    {
        proof {
            use_type_invariant(&*self);
        }
        let written = self.bytes_written + n;
        let since = self.bytes_since_flush + n;
        if since >= FLUSH_EVERY_BYTES {
            *self = ScrollbackLog { bytes_written: written, bytes_since_flush: 0 };
            true
        } else {
            *self = ScrollbackLog { bytes_written: written, bytes_since_flush: since };
            false
        }
    }
}

/// After a write of at most `MAX_SCROLLBACK_BYTES - KEEP_AFTER_ROTATE` bytes,
/// rotating first when the write would overflow the cap, the scrollback is
/// no larger than `MAX_SCROLLBACK_BYTES`.
pub proof fn lemma_scrollback_bounded(written: int, incoming: int, content: Seq<u8>)
    requires
        0 <= written,
        0 <= incoming <= MAX_SCROLLBACK_BYTES - KEEP_AFTER_ROTATE,
    ensures
        size_after_write(written, incoming, rotated(content).len() as int) <= MAX_SCROLLBACK_BYTES,
{
    let tail = content.subrange(keep_from(content.len() as int), content.len() as int);
    lemma_utf8_start_bounds(tail, 0);
}

/// The history reported for a scrollback: nothing for an empty one, else the
/// whole text as one string.
pub fn history_from_scrollback(scrollback: String) -> (r: Vec<String>)
    ensures
        scrollback@.len() == 0 ==> r@.len() == 0,
        scrollback@.len() > 0 ==> r@.len() == 1 && r@[0]@ == scrollback@,
{
    let mut out: Vec<String> = Vec::new();
    if scrollback.as_str().unicode_len() > 0 {
        out.push(scrollback);
    }
    out
}

} // verus!
