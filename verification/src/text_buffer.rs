//! The line under edit: its characters, a cursor and a width limit.

use vstd::prelude::*;
use crate::text::{chars_of, string_of};

verus! {

/// What a text buffer holds, as mathematics.
pub ghost struct Line {
    /// The characters of the line.
    pub content: Seq<char>,
    /// The cursor's offset into `content`.
    pub cursor: int,
    /// The most characters the line may grow to by insertion.
    pub width_limit: int,
}

/// One keystroke's worth of editing.
#[derive(Clone, Copy, Debug, PartialEq, Eq)]
pub enum Edit {
    /// Type a character at the cursor.
    Insert(char),
    /// Remove the character before the cursor.
    Backspace,
    /// Remove the character at the cursor.
    DeleteForward,
    /// Move the cursor one place left.
    MoveLeft,
    /// Move the cursor one place right.
    MoveRight,
    /// Move the cursor to the start of the line.
    MoveHome,
    /// Move the cursor to the end of the line.
    MoveEnd,
}

impl Line {
    /// The cursor lies inside the line and the limit admits a character.
    pub open spec fn wf(self) -> bool {
        0 <= self.cursor <= self.content.len() && 0 < self.width_limit
    }

    /// The line is well formed and no longer than its limit.
    pub open spec fn bounded(self) -> bool {
        self.wf() && self.content.len() <= self.width_limit
    }

    /// The empty line under `width_limit`.
    pub open spec fn empty(width_limit: int) -> Line {
        Line { content: Seq::empty(), cursor: 0, width_limit }
    }

    /// `c` typed at the cursor; nothing changes once the limit is reached.
    pub open spec fn insert_char(self, c: char) -> Line {
        if self.content.len() >= self.width_limit {
            self
        } else {
            Line { content: self.content.insert(self.cursor, c), cursor: self.cursor + 1, ..self }
        }
    }

    /// The character before the cursor removed; nothing changes at the start.
    pub open spec fn backspace(self) -> Line {
        if self.cursor == 0 {
            self
        } else {
            Line { content: self.content.remove(self.cursor - 1), cursor: self.cursor - 1, ..self }
        }
    }

    /// The character at the cursor removed; nothing changes at the end.
    pub open spec fn delete_forward(self) -> Line {
        if self.cursor == self.content.len() {
            self
        } else {
            Line { content: self.content.remove(self.cursor), ..self }
        }
    }

    /// The cursor one place left, stopping at the start.
    pub open spec fn move_left(self) -> Line {
        Line { cursor: if self.cursor > 0 { self.cursor - 1 } else { self.cursor }, ..self }
    }

    /// The cursor one place right, stopping at the end.
    pub open spec fn move_right(self) -> Line {
        Line {
            cursor: if self.cursor < self.content.len() { self.cursor + 1 } else { self.cursor },
            ..self
        }
    }

    /// The cursor at the start.
    pub open spec fn move_home(self) -> Line {
        Line { cursor: 0, ..self }
    }

    /// The cursor at the end.
    pub open spec fn move_end(self) -> Line {
        Line { cursor: self.content.len() as int, ..self }
    }

    /// The line emptied.
    pub open spec fn clear(self) -> Line {
        Line { content: Seq::empty(), cursor: 0, ..self }
    }

    /// The line replaced by `s`, the cursor at its end.
    pub open spec fn set_content(self, s: Seq<char>) -> Line {
        Line { content: s, cursor: s.len() as int, ..self }
    }

    /// The line after one edit.
    pub open spec fn apply(self, edit: Edit) -> Line {
        match edit {
            Edit::Insert(c) => self.insert_char(c),
            Edit::Backspace => self.backspace(),
            Edit::DeleteForward => self.delete_forward(),
            Edit::MoveLeft => self.move_left(),
            Edit::MoveRight => self.move_right(),
            Edit::MoveHome => self.move_home(),
            Edit::MoveEnd => self.move_end(),
        }
    }

    /// The line after a run of edits, first to last.
    pub open spec fn apply_all(self, edits: Seq<Edit>) -> Line
        decreases edits.len(),
    {
        if edits.len() == 0 {
            self
        } else {
            self.apply_all(edits.drop_last()).apply(edits.last())
        }
    }
}

/// A bounded line never leaves its bounds, whatever is typed: after every
/// prefix of a run of edits the cursor lies inside the line and the line is
/// no longer than its limit.
pub proof fn edits_keep_bounds(line: Line, edits: Seq<Edit>)
    requires
        line.bounded(),
    ensures
        forall|k: int| 0 <= k <= edits.len() ==> (#[trigger] line.apply_all(edits.take(k))).bounded(),
        line.apply_all(edits).bounded(),
        line.apply_all(edits).width_limit == line.width_limit,
    decreases edits.len(),
{
    if edits.len() > 0 {
        let front = edits.drop_last();
        edits_keep_bounds(line, front);
        assert forall|k: int| 0 <= k <= edits.len() implies (#[trigger] line.apply_all(
            edits.take(k),
        )).bounded() by {
            if k < edits.len() {
                assert(edits.take(k) =~= front.take(k));
            } else {
                assert(edits.take(k) =~= edits);
            }
        }
    } else {
        assert forall|k: int| 0 <= k <= edits.len() implies (#[trigger] line.apply_all(
            edits.take(k),
        )).bounded() by {
            assert(edits.take(k) =~= edits);
        }
    }
}

/// The line under edit.
pub struct TextBuffer {
    content: Vec<char>,
    cursor: usize,
    width_limit: usize,
}

impl View for TextBuffer {
    type V = Line;

    closed spec fn view(&self) -> Line {
        Line {
            content: self.content@,
            cursor: self.cursor as int,
            width_limit: self.width_limit as int,
        }
    }
}

impl TextBuffer {
    /// Every value of the type is well formed.
    #[verifier::type_invariant]
    pub open spec fn inv(&self) -> bool {
        self@.wf()
    }

    /// Hands the characters out and leaves the line empty, so that they can
    /// be edited while the buffer stays well formed.
    fn take_content(&mut self) -> (content: Vec<char>)
        ensures
            content@ == old(self)@.content,
            final(self)@ == old(self)@.clear(),
    {
        proof {
            use_type_invariant(&*self);
        }
        self.cursor = 0;
        let mut content: Vec<char> = Vec::new();
        std::mem::swap(&mut self.content, &mut content);
        content
    }

    /// An empty buffer that takes up to `width_limit` characters by insertion.
    pub fn new(width_limit: usize) -> (buffer: TextBuffer)
        requires
            width_limit > 0,
        ensures
            buffer@ == Line::empty(width_limit as int),
            buffer@.wf(),
    {
        TextBuffer { content: Vec::new(), cursor: 0, width_limit }
    }

    /// The characters of the line, as a string.
    pub fn text(&self) -> (s: String)
        ensures
            s@ == self@.content,
    {
        string_of(&self.content)
    }

    /// The number of characters in the line.
    pub fn len(&self) -> (n: usize)
        ensures
            n == self@.content.len(),
            self@.wf(),
    {
        proof {
            use_type_invariant(self);
        }
        self.content.len()
    }

    /// Whether the line holds no character.
    pub fn is_empty(&self) -> (b: bool)
        ensures
            b == (self@.content.len() == 0),
    {
        self.content.len() == 0
    }

    /// The cursor's offset, which never passes the end of the line.
    pub fn cursor(&self) -> (c: usize)
        ensures
            c == self@.cursor,
            self@.wf(),
    {
        proof {
            use_type_invariant(self);
        }
        self.cursor
    }

    /// The limit on insertion, which is never zero.
    pub fn width_limit(&self) -> (w: usize)
        ensures
            w == self@.width_limit,
            self@.wf(),
    {
        proof {
            use_type_invariant(self);
        }
        self.width_limit
    }

    /// Changes the limit. A line that is already longer stays as it is: the
    /// limit binds insertion only.
    pub fn set_width_limit(&mut self, width_limit: usize)
        requires
            width_limit > 0,
        ensures
            final(self)@.wf(),
            final(self)@ == (Line { width_limit: width_limit as int, ..old(self)@ }),
    {
        proof {
            use_type_invariant(&*self);
        }
        self.width_limit = width_limit;
    }

    /// Types `c` at the cursor and steps over it. Once the line has reached
    /// the limit the keystroke is dropped.
    pub fn insert_char(&mut self, c: char)
        ensures
            final(self)@.wf(),
            final(self)@ == old(self)@.insert_char(c),
            old(self)@.content.len() >= old(self)@.width_limit ==> final(self)@ == old(self)@,
            old(self)@.bounded() ==> final(self)@.bounded(),
    {
        proof {
            use_type_invariant(&*self);
        }
        if self.content.len() < self.width_limit {
            let cursor: usize = self.cursor;
            let mut content = self.take_content();
            content.insert(cursor, c);
            self.content = content;
            self.cursor = cursor + 1;
        }
    }

    /// Removes the character before the cursor, if there is one.
    pub fn backspace(&mut self)
        ensures
            final(self)@.wf(),
            final(self)@ == old(self)@.backspace(),
            old(self)@.bounded() ==> final(self)@.bounded(),
    {
        proof {
            use_type_invariant(&*self);
        }
        if self.cursor > 0 {
            let cursor: usize = self.cursor - 1;
            let mut content = self.take_content();
            content.remove(cursor);
            self.content = content;
            self.cursor = cursor;
        }
    }

    /// Removes the character at the cursor, if there is one.
    pub fn delete_forward(&mut self)
        ensures
            final(self)@.wf(),
            final(self)@ == old(self)@.delete_forward(),
            old(self)@.bounded() ==> final(self)@.bounded(),
    {
        proof {
            use_type_invariant(&*self);
        }
        if self.cursor < self.content.len() {
            let cursor: usize = self.cursor;
            let mut content = self.take_content();
            content.remove(cursor);
            self.content = content;
            self.cursor = cursor;
        }
    }

    /// Moves the cursor one place left, stopping at the start.
    pub fn move_left(&mut self)
        ensures
            final(self)@.wf(),
            final(self)@ == old(self)@.move_left(),
    {
        proof {
            use_type_invariant(&*self);
        }
        if self.cursor > 0 {
            self.cursor -= 1;
        }
    }

    /// Moves the cursor one place right, stopping at the end.
    pub fn move_right(&mut self)
        ensures
            final(self)@.wf(),
            final(self)@ == old(self)@.move_right(),
    {
        proof {
            use_type_invariant(&*self);
        }
        if self.cursor < self.content.len() {
            self.cursor += 1;
        }
    }

    /// Moves the cursor to the start.
    pub fn move_home(&mut self)
        ensures
            final(self)@.wf(),
            final(self)@ == old(self)@.move_home(),
    {
        proof {
            use_type_invariant(&*self);
        }
        self.cursor = 0;
    }

    /// Moves the cursor to the end.
    pub fn move_end(&mut self)
        ensures
            final(self)@.wf(),
            final(self)@ == old(self)@.move_end(),
    {
        proof {
            use_type_invariant(&*self);
        }
        self.cursor = self.content.len();
    }

    /// Empties the line.
    pub fn clear(&mut self)
        ensures
            final(self)@.wf(),
            final(self)@ == old(self)@.clear(),
    {
        proof {
            use_type_invariant(&*self);
        }
        self.take_content();
    }

    /// Replaces the line by `s` and puts the cursor at its end. The limit is
    /// not applied: it binds insertion only.
    pub fn set_content(&mut self, s: &str)
        ensures
            final(self)@.wf(),
            final(self)@ == old(self)@.set_content(s@),
    {
        proof {
            use_type_invariant(&*self);
        }
        let content = chars_of(s);
        self.cursor = 0;
        self.content = content;
        self.cursor = self.content.len();
    }

    /// Performs one edit.
    pub fn apply(&mut self, edit: Edit)
        ensures
            final(self)@.wf(),
            final(self)@ == old(self)@.apply(edit),
            old(self)@.bounded() ==> final(self)@.bounded(),
    {
        match edit {
            Edit::Insert(c) => self.insert_char(c),
            Edit::Backspace => self.backspace(),
            Edit::DeleteForward => self.delete_forward(),
            Edit::MoveLeft => self.move_left(),
            Edit::MoveRight => self.move_right(),
            Edit::MoveHome => self.move_home(),
            Edit::MoveEnd => self.move_end(),
        }
    }
}

} // verus!
