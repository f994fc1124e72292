//! The history of one mode: what was submitted, oldest first, and where the
//! user stands while browsing it.

use vstd::prelude::*;
use vstd::string::*;
use crate::text::{lines_view, option_view};

verus! {

/// What a history pool holds, as mathematics.
pub ghost struct Pool {
    /// The submitted entries, oldest first.
    pub entries: Seq<Seq<char>>,
    /// The entry on show; `entries.len()` stands for the line being composed.
    pub cursor: int,
    /// The line being composed, kept while the user browses.
    pub scratch: Seq<char>,
}

impl Pool {
    /// The cursor names an entry or the live position.
    pub open spec fn wf(self) -> bool {
        0 <= self.cursor <= self.entries.len()
    }

    /// The user is composing, not browsing.
    pub open spec fn is_live(self) -> bool {
        self.cursor == self.entries.len()
    }

    /// The pool that holds `lines` and stands at the live position.
    pub open spec fn load(lines: Seq<Seq<char>>) -> Pool {
        Pool { entries: lines, cursor: lines.len() as int, scratch: Seq::empty() }
    }

    /// One step towards the oldest entry. Leaving the live position keeps
    /// `current`, the line being composed, as scratch.
    pub open spec fn navigate_up(self, current: Seq<char>) -> Pool {
        if self.cursor == 0 {
            self
        } else {
            Pool {
                cursor: self.cursor - 1,
                scratch: if self.is_live() { current } else { self.scratch },
                ..self
            }
        }
    }

    /// What a step up puts on show; `None` where it does not move.
    pub open spec fn shown_up(self) -> Option<Seq<char>> {
        if self.cursor == 0 {
            None
        } else {
            Some(self.entries[self.cursor - 1])
        }
    }

    /// One step towards the live position.
    pub open spec fn navigate_down(self) -> Pool {
        if self.is_live() {
            self
        } else {
            Pool { cursor: self.cursor + 1, ..self }
        }
    }

    /// What a step down puts on show; `None` where it does not move.
    pub open spec fn shown_down(self) -> Option<Seq<char>> {
        if self.is_live() {
            None
        } else if self.cursor + 1 == self.entries.len() {
            Some(self.scratch)
        } else {
            Some(self.entries[self.cursor + 1])
        }
    }

    /// `text` becomes the line being composed, and browsing ends.
    pub open spec fn record_live_edit(self, text: Seq<char>) -> Pool {
        Pool { cursor: self.entries.len() as int, scratch: text, ..self }
    }

    /// `text` joins the entries as the newest; the pool is live and the
    /// scratch empty.
    pub open spec fn append(self, text: Seq<char>) -> Pool {
        Pool::load(self.entries.push(text))
    }
}

/// The history of one mode.
pub struct HistoryPool {
    entries: Vec<String>,
    cursor: usize,
    scratch: String,
}

impl View for HistoryPool {
    type V = Pool;

    closed spec fn view(&self) -> Pool {
        Pool {
            entries: lines_view(self.entries@),
            cursor: self.cursor as int,
            scratch: self.scratch@,
        }
    }
}

impl HistoryPool {
    /// Every value of the type is well formed.
    #[verifier::type_invariant]
    pub open spec fn inv(&self) -> bool {
        self@.wf()
    }

    /// A pool without entries.
    pub fn new() -> (pool: HistoryPool)
        ensures
            pool@ == Pool::load(Seq::empty()),
            pool@.wf(),
    {
        let pool = HistoryPool { entries: Vec::new(), cursor: 0, scratch: String::new() };
        assert(pool@.entries =~= Seq::empty());
        pool
    }

    /// Replaces the entries by `lines`, in their order, and stands at the live
    /// position with an empty scratch.
    pub fn load(&mut self, lines: Vec<String>)
        ensures
            final(self)@ == Pool::load(lines_view(lines@)),
            final(self)@.wf(),
    {
        self.cursor = 0;
        self.entries = lines;
        self.cursor = self.entries.len();
        self.scratch = String::new();
    }

    /// Steps towards the oldest entry and returns the entry to show. At the
    /// oldest entry, or with no entries, nothing changes and `None` comes
    /// back. `current` is the line in the buffer; leaving the live position
    /// keeps it as scratch.
    pub fn navigate_up(&mut self, current: &str) -> (shown: Option<String>)
        ensures
            final(self)@.wf(),
            final(self)@ == old(self)@.navigate_up(current@),
            option_view(shown) == old(self)@.shown_up(),
    {
        proof {
            use_type_invariant(&*self);
        }
        if self.cursor == 0 {
            return None;
        }
        if self.cursor == self.entries.len() {
            self.scratch = String::from_str(current);
        }
        self.cursor -= 1;
        Some(self.entries[self.cursor].clone())
    }

    /// Steps towards the live position and returns the text to show: the
    /// next entry, or the scratch on arrival. At the live position nothing
    /// changes and `None` comes back.
    pub fn navigate_down(&mut self) -> (shown: Option<String>)
        ensures
            final(self)@.wf(),
            final(self)@ == old(self)@.navigate_down(),
            option_view(shown) == old(self)@.shown_down(),
    {
        proof {
            use_type_invariant(&*self);
        }
        if self.cursor == self.entries.len() {
            return None;
        }
        self.cursor += 1;
        if self.cursor == self.entries.len() {
            Some(self.scratch.clone())
        } else {
            Some(self.entries[self.cursor].clone())
        }
    }

    /// Takes `text` as the line being composed. An edit made while browsing
    /// ends the browsing: the pool returns to the live position.
    pub fn record_live_edit(&mut self, text: &str)
        ensures
            final(self)@.wf(),
            final(self)@ == old(self)@.record_live_edit(text@),
    {
        self.cursor = self.entries.len();
        self.scratch = String::from_str(text);
    }

    /// Adds `text` as the newest entry, returns to the live position and
    /// empties the scratch.
    pub fn append(&mut self, text: String)
        ensures
            final(self)@.wf(),
            final(self)@ == old(self)@.append(text@),
    {
        // The entries grow outside the pool, which is well formed meanwhile.
        self.cursor = 0;
        let mut entries: Vec<String> = Vec::new();
        std::mem::swap(&mut self.entries, &mut entries);
        entries.push(text);
        self.entries = entries;
        self.cursor = self.entries.len();
        self.scratch = String::new();
        assert(lines_view(self.entries@) =~= lines_view(old(self).entries@).push(text@));
    }

    /// The number of entries.
    pub fn len(&self) -> (n: usize)
        ensures
            n == self@.entries.len(),
    {
        self.entries.len()
    }

    /// Whether the pool has no entries.
    pub fn is_empty(&self) -> (b: bool)
        ensures
            b == (self@.entries.len() == 0),
    {
        self.entries.len() == 0
    }

    /// The position on show, which never passes `len()`, the live position.
    pub fn cursor(&self) -> (c: usize)
        ensures
            c == self@.cursor,
            self@.wf(),
    {
        proof {
            use_type_invariant(self);
        }
        self.cursor
    }

    /// Whether the user is composing rather than browsing.
    pub fn is_live(&self) -> (b: bool)
        ensures
            b == self@.is_live(),
    {
        self.cursor == self.entries.len()
    }

    /// The entries, oldest first.
    pub fn entries(&self) -> (entries: &Vec<String>)
        ensures
            lines_view(entries@) == self@.entries,
    {
        &self.entries
    }

    /// The line kept while browsing.
    pub fn scratch(&self) -> (scratch: &str)
        ensures
            scratch@ == self@.scratch,
    {
        self.scratch.as_str()
    }
}

} // verus!
