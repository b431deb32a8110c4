//! The decisions of a session's reader task, which alternates blocking
//! reads of the terminal with forwarding what it read.
//!
//! Each successful read becomes exactly one `TerminalOutput` event, carrying
//! the bytes of that read. `OutputForwarder` records this: the events it has
//! made are, in order, the texts of the reads it was given.

use vstd::prelude::*;
use crate::protocol::DaemonEvent;

verus! {

/// The text of some bytes with each invalid UTF-8 sequence replaced by
/// U+FFFD, as `String::from_utf8_lossy` gives it.
pub uninterp spec fn utf8_lossy(bytes: Seq<u8>) -> Seq<char>;

/// The text of some bytes, decoded lossily.
/// Relies on `String::from_utf8_lossy`: the result depends on the bytes alone.
#[verifier::external_body]
fn lossy_text(bytes: &[u8]) -> (r: String)
    ensures
        r@ == utf8_lossy(bytes@),
{
    String::from_utf8_lossy(bytes).to_string()
}

/// What one read of the terminal gave.
#[derive(Clone, Copy, Debug, PartialEq, Eq, Structural)]
pub enum ReadOutcome {
    /// Some bytes were read.
    Data,
    /// The terminal closed.
    EndOfFile,
    /// The read failed.
    Failed,
}

/// What the reader does next.
#[derive(Clone, Copy, Debug, PartialEq, Eq, Structural)]
pub enum ReaderAction {
    /// Persist and forward the bytes, then read again.
    Forward,
    /// Stop reading. `warn` tells whether to log the end as unexpected;
    /// `mark_stopped` whether to mark the session stopped in the registry.
    Exit { warn: bool, mark_stopped: bool },
}

/// Whether the reader may block on another read: not once its session asked
/// it to shut down.
pub fn may_read(shutdown_requested: bool) -> (r: bool)
    ensures
        r == !shutdown_requested,
{
    !shutdown_requested
}

/// The reader's next step after a read. A read error is worth a warning
/// unless shutdown was requested. A reader that ends on its own (its
/// session did not ask it to) marks the session stopped; one whose session
/// was closed, restarted or switched leaves the registry alone, since the
/// session may already run on a new terminal.
pub fn after_read(outcome: ReadOutcome, shutdown_requested: bool) -> (r: ReaderAction)
    ensures
        outcome == ReadOutcome::Data ==> r == ReaderAction::Forward,
        outcome == ReadOutcome::EndOfFile ==> r == (ReaderAction::Exit {
            warn: false,
            mark_stopped: !shutdown_requested,
        }),
        outcome == ReadOutcome::Failed ==> r == (ReaderAction::Exit {
            warn: !shutdown_requested,
            mark_stopped: !shutdown_requested,
        }),
{
    match outcome {
        ReadOutcome::Data => ReaderAction::Forward,
        ReadOutcome::EndOfFile => ReaderAction::Exit { warn: false, mark_stopped: !shutdown_requested },
        ReadOutcome::Failed => ReaderAction::Exit {
            warn: !shutdown_requested,
            mark_stopped: !shutdown_requested,
        },
    }
}

/// What the reader does when it stops because shutdown was requested
/// before a read.
pub fn on_shutdown() -> (r: ReaderAction)
    ensures
        r == (ReaderAction::Exit { warn: false, mark_stopped: false }),
{
    ReaderAction::Exit { warn: false, mark_stopped: false }
}

/// The text persisted and forwarded for one read.
pub fn output_text(bytes: &[u8]) -> (r: String)
    ensures
        r@ == utf8_lossy(bytes@),
{
    lossy_text(bytes)
}

/// The one event that forwards one read of a session's terminal.
pub fn output_event(terminal_id: &str, text: String) -> (r: DaemonEvent)
    ensures
        r matches DaemonEvent::TerminalOutput { terminal_id: t, data }
            && t@ == terminal_id@ && data@ == text@,
{
    DaemonEvent::TerminalOutput { terminal_id: crate::text::owned(terminal_id), data: text }
}

/// The texts forwarded for a sequence of reads, one per read, in order.
pub open spec fn texts_of(reads: Seq<Seq<u8>>) -> Seq<Seq<char>> {
    reads.map_values(|b: Seq<u8>| utf8_lossy(b))
}

/// The forwarding record of one session's reader: the bytes of each
/// successful read, and the text of each `TerminalOutput` event made for
/// them, both in order.
pub struct OutputForwarder {
    terminal_id: String,
    reads: Ghost<Seq<Seq<u8>>>,
    sent: Ghost<Seq<Seq<char>>>,
}

impl OutputForwarder {
    #[verifier::type_invariant]
    spec fn inv(&self) -> bool {
        self.sent@ == texts_of(self.reads@)
    }

    /// The session whose output is forwarded.
    pub closed spec fn id(&self) -> Seq<char> {
        self.terminal_id@
    }

    /// The bytes of every read so far, in order.
    pub closed spec fn reads(&self) -> Seq<Seq<u8>> {
        self.reads@
    }

    /// The text of every output event made so far, in order.
    pub closed spec fn sent(&self) -> Seq<Seq<char>> {
        self.sent@
    }

    /// A forwarder for a session that has read nothing yet.
    pub fn new(terminal_id: String) -> (r: Self)
        ensures
            r.id() == terminal_id@,
            r.reads() == Seq::<Seq<u8>>::empty(),
            r.sent() == Seq::<Seq<char>>::empty(),
    {
        assert(texts_of(Seq::<Seq<u8>>::empty()) =~= Seq::<Seq<char>>::empty());
        OutputForwarder { terminal_id, reads: Ghost(Seq::empty()), sent: Ghost(Seq::empty()) }
    }

    /// Forwards one read: the text to persist and the one event that carries
    /// it. The events made so far are, in order, the texts of the reads.
    pub fn forward(&mut self, bytes: &[u8]) -> (r: (String, DaemonEvent))
        ensures
            final(self).id() == old(self).id(),
            final(self).reads() == old(self).reads().push(bytes@),
            final(self).sent() == old(self).sent().push(utf8_lossy(bytes@)),
            final(self).sent() == texts_of(final(self).reads()),
            r.0@ == utf8_lossy(bytes@),
            r.1 matches DaemonEvent::TerminalOutput { terminal_id, data } && terminal_id@ == old(self).id() && data@ == r.0@,
    {
        proof {
            use_type_invariant(&*self);
        }
        let text = output_text(bytes);
        let event = output_event(self.terminal_id.as_str(), text.clone());
        let ghost reads = self.reads@.push(bytes@);
        let ghost sent = self.sent@.push(utf8_lossy(bytes@));
        proof {
            assert(sent =~= texts_of(reads));
        }
        *self = OutputForwarder {
            terminal_id: self.terminal_id.clone(),
            reads: Ghost(reads),
            sent: Ghost(sent),
        };
        (text, event)
    }
}

} // verus!
