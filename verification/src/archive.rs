//! The history files as the editor's caller keeps them, and how a session
//! and its files stay in step.

use vstd::prelude::*;
use crate::editor::{Action, Outcome, Session};
use crate::mode::Mode;
use crate::store::{append_then_read, entries_of, line_of, storable, terminated};

verus! {

/// What the three history files hold, as mathematics.
pub ghost struct Archive {
    /// The contents of the file of text mode.
    pub text: Seq<char>,
    /// The contents of the file of path mode.
    pub path: Seq<char>,
    /// The contents of the file of command mode.
    pub command: Seq<char>,
}

impl Archive {
    /// The contents of the file of `mode`.
    pub open spec fn contents(self, mode: Mode) -> Seq<char> {
        match mode {
            Mode::Text => self.text,
            Mode::Path => self.path,
            Mode::Command => self.command,
        }
    }

    /// The entries that the file of `mode` holds.
    pub open spec fn entries(self, mode: Mode) -> Seq<Seq<char>> {
        entries_of(self.contents(mode))
    }

    /// The files after `line` was appended to the file of `mode`.
    pub open spec fn append(self, mode: Mode, line: Seq<char>) -> Archive {
        match mode {
            Mode::Text => Archive { text: self.text + line, ..self },
            Mode::Path => Archive { path: self.path + line, ..self },
            Mode::Command => Archive { command: self.command + line, ..self },
        }
    }

    /// The files after the caller did what `outcome` asks, in `mode`: an
    /// entry to persist goes to the end of that mode's file as one line.
    pub open spec fn record(self, mode: Mode, outcome: Outcome) -> Archive {
        match outcome {
            Outcome::Persist(text) => self.append(mode, line_of(text)),
            _ => self,
        }
    }
}

/// The session and the files after a run of actions, each followed by what
/// it asks of the caller.
pub open spec fn run(s: Session, files: Archive, actions: Seq<Action>) -> (Session, Archive)
    decreases actions.len(),
{
    if actions.len() == 0 {
        (s, files)
    } else {
        let (before, kept) = run(s, files, actions.drop_last());
        (
            before.step(actions.last()),
            kept.record(before.mode, before.outcome(actions.last())),
        )
    }
}

/// The session after a switch to `mode` that reads the mode's file.
pub open spec fn enter(s: Session, files: Archive, mode: Mode) -> Session {
    s.switch_mode(mode, Some(files.entries(mode)))
}

/// What is submitted is there after a restart: where the pool holds what the
/// mode's file holds, and the line can be stored, a submit leaves pool and
/// file in step, and a later read of the file gives a pool whose newest
/// entry is the line.
pub proof fn submitted_entry_is_read_back(s: Session, files: Archive)
    requires
        s.wf(),
        s.pool.entries == files.entries(s.mode),
        terminated(files.contents(s.mode)),
        s.line.content.len() > 0,
        storable(s.line.content),
    ensures
        ({
            let after = s.step(Action::Submit);
            let kept = files.record(s.mode, s.outcome(Action::Submit));
            let again = enter(after, kept, s.mode);
            &&& terminated(kept.contents(s.mode))
            &&& after.pool.entries == kept.entries(s.mode)
            &&& again.pool.entries == s.pool.entries.push(s.line.content)
            &&& again.pool.entries.last() == s.line.content
        }),
{
    append_then_read(files.contents(s.mode), s.line.content);
}

/// A run of actions stays in its mode and writes to that mode's file alone.
pub proof fn run_touches_one_file(s: Session, files: Archive, actions: Seq<Action>, other: Mode)
    requires
        other != s.mode,
    ensures
        run(s, files, actions).0.mode == s.mode,
        run(s, files, actions).1.contents(other) == files.contents(other),
    decreases actions.len(),
{
    if actions.len() > 0 {
        run_touches_one_file(s, files, actions.drop_last(), other);
    }
}

/// The histories do not mix: after a switch to another mode, whatever is
/// done there, a switch back gives the pool the entries that it had.
pub proof fn switch_there_and_back(
    s: Session,
    files: Archive,
    other: Mode,
    actions: Seq<Action>,
)
    requires
        other != s.mode,
        s.pool.entries == files.entries(s.mode),
    ensures
        ({
            let (there, kept) = run(enter(s, files, other), files, actions);
            let back = enter(there, kept, s.mode);
            &&& enter(s, files, other).pool.entries == files.entries(other)
            &&& back.mode == s.mode
            &&& back.pool.entries == s.pool.entries
            &&& back.pool.is_live()
            &&& back.line.content.len() == 0
        }),
{
    run_touches_one_file(enter(s, files, other), files, actions, s.mode);
}

} // verus!
