//! The controller: one mode, one line under edit and one history at a time,
//! driven by the user's actions.

use vstd::prelude::*;
use crate::history::{HistoryPool, Pool};
use crate::layout::{BoxStyle, Placement};
use crate::mode::Mode;
use crate::text::{lines_view, option_view};
use crate::text_buffer::{Edit, Line, TextBuffer};

verus! {

/// What the user asks for with one key.
#[derive(Clone, Copy, Debug, PartialEq, Eq)]
pub enum Action {
    /// Edit the line or move in it.
    Edit(Edit),
    /// Show the entry before the one on show.
    Up,
    /// Show the entry after the one on show, or return to the line being
    /// composed.
    Down,
    /// Submit the line.
    Submit,
    /// Clear the line, or leave where it is empty already.
    Cancel,
}

/// A key as the terminal reports it.
#[derive(Clone, Copy, Debug, PartialEq, Eq)]
pub enum Key {
    /// The escape key.
    Escape,
    /// The enter key.
    Enter,
    /// The backspace key.
    Backspace,
    /// The delete key.
    Delete,
    /// The up arrow.
    Up,
    /// The down arrow.
    Down,
    /// The left arrow.
    Left,
    /// The right arrow.
    Right,
    /// The home key.
    Home,
    /// The end key.
    End,
    /// A character key.
    Char(char),
    /// Any other key.
    Other,
}

/// What a key stands for; `None` for a key without a meaning here.
pub open spec fn action_of(key: Key) -> Option<Action> {
    match key {
        Key::Escape => Some(Action::Cancel),
        Key::Enter => Some(Action::Submit),
        Key::Backspace => Some(Action::Edit(Edit::Backspace)),
        Key::Delete => Some(Action::Edit(Edit::DeleteForward)),
        Key::Up => Some(Action::Up),
        Key::Down => Some(Action::Down),
        Key::Left => Some(Action::Edit(Edit::MoveLeft)),
        Key::Right => Some(Action::Edit(Edit::MoveRight)),
        Key::Home => Some(Action::Edit(Edit::MoveHome)),
        Key::End => Some(Action::Edit(Edit::MoveEnd)),
        Key::Char(c) => Some(Action::Edit(Edit::Insert(c))),
        Key::Other => None,
    }
}

/// The action that `key` stands for, if any.
pub fn action_for(key: Key) -> (action: Option<Action>)
    ensures
        action == action_of(key),
{
    match key {
        Key::Escape => Some(Action::Cancel),
        Key::Enter => Some(Action::Submit),
        Key::Backspace => Some(Action::Edit(Edit::Backspace)),
        Key::Delete => Some(Action::Edit(Edit::DeleteForward)),
        Key::Up => Some(Action::Up),
        Key::Down => Some(Action::Down),
        Key::Left => Some(Action::Edit(Edit::MoveLeft)),
        Key::Right => Some(Action::Edit(Edit::MoveRight)),
        Key::Home => Some(Action::Edit(Edit::MoveHome)),
        Key::End => Some(Action::Edit(Edit::MoveEnd)),
        Key::Char(c) => Some(Action::Edit(Edit::Insert(c))),
        Key::Other => None,
    }
}

/// What the caller has to do after an action.
#[derive(Debug, PartialEq, Eq)]
pub enum Effect {
    /// Nothing but draw the next frame.
    Continue,
    /// Append this entry to the history file of the current mode.
    Persist(String),
    /// End the session.
    Exit,
}

/// An effect, as mathematics.
pub ghost enum Outcome {
    /// Nothing but draw the next frame.
    Continue,
    /// Append this entry to the history file of the current mode.
    Persist(Seq<char>),
    /// End the session.
    Exit,
}

impl View for Effect {
    type V = Outcome;

    open spec fn view(&self) -> Outcome {
        match self {
            Effect::Continue => Outcome::Continue,
            Effect::Persist(text) => Outcome::Persist(text@),
            Effect::Exit => Outcome::Exit,
        }
    }
}

/// What an editor holds, as mathematics.
pub ghost struct Session {
    /// The current mode.
    pub mode: Mode,
    /// The line under edit.
    pub line: Line,
    /// The history of the current mode.
    pub pool: Pool,
    /// The shape of the input box.
    pub style: BoxStyle,
}

impl Session {
    /// The line and the pool are well formed.
    pub open spec fn wf(self) -> bool {
        self.line.wf() && self.pool.wf()
    }

    /// The session that starts in text mode with an empty line and no
    /// history.
    pub open spec fn start(style: BoxStyle, width_limit: int) -> Session {
        Session {
            mode: Mode::Text,
            line: Line::empty(width_limit),
            pool: Pool::load(Seq::empty()),
            style,
        }
    }

    /// An edit of the line. One that changes the text makes the result the
    /// line being composed and ends any browsing; one that only moves the
    /// cursor, or does nothing, leaves the pool alone.
    pub open spec fn edit(self, edit: Edit) -> Session {
        let line = self.line.apply(edit);
        Session {
            line,
            pool: if line.content == self.line.content {
                self.pool
            } else {
                self.pool.record_live_edit(line.content)
            },
            ..self
        }
    }

    /// A step up in the history: the entry before comes into the line, the
    /// cursor at its end.
    pub open spec fn up(self) -> Session {
        match self.pool.shown_up() {
            Some(text) => Session {
                line: self.line.set_content(text),
                pool: self.pool.navigate_up(self.line.content),
                ..self
            },
            None => self,
        }
    }

    /// A step down in the history: the entry after, or the line that was
    /// being composed, comes into the line, the cursor at its end.
    pub open spec fn down(self) -> Session {
        match self.pool.shown_down() {
            Some(text) => Session {
                line: self.line.set_content(text),
                pool: self.pool.navigate_down(),
                ..self
            },
            None => self,
        }
    }

    /// A submit: the line joins the history and is cleared. An empty line is
    /// not submitted.
    pub open spec fn submit(self) -> Session {
        if self.line.content.len() == 0 {
            self
        } else {
            Session {
                line: self.line.clear(),
                pool: self.pool.append(self.line.content),
                ..self
            }
        }
    }

    /// A cancel: the line is cleared and any browsing ends. An empty line
    /// stays as it is.
    pub open spec fn cancel(self) -> Session {
        if self.line.content.len() == 0 {
            self
        } else {
            Session {
                line: self.line.clear(),
                pool: self.pool.record_live_edit(Seq::empty()),
                ..self
            }
        }
    }

    /// The session after `action`.
    pub open spec fn step(self, action: Action) -> Session {
        match action {
            Action::Edit(edit) => self.edit(edit),
            Action::Up => self.up(),
            Action::Down => self.down(),
            Action::Submit => self.submit(),
            Action::Cancel => self.cancel(),
        }
    }

    /// What `action` asks of the caller: to persist a line that was
    /// submitted, to end the session on a cancel of the empty line, nothing
    /// otherwise.
    pub open spec fn outcome(self, action: Action) -> Outcome {
        match action {
            Action::Submit if self.line.content.len() > 0 => Outcome::Persist(self.line.content),
            Action::Cancel if self.line.content.len() == 0 => Outcome::Exit,
            _ => Outcome::Continue,
        }
    }

    /// The session after a switch to `mode`, whose history file held `lines`:
    /// the pool holds them and nothing else, and the line is empty. Where the
    /// file could not be read the pool is empty.
    pub open spec fn switch_mode(self, mode: Mode, lines: Option<Seq<Seq<char>>>) -> Session {
        Session {
            mode,
            line: self.line.clear(),
            pool: Pool::load(
                match lines {
                    Some(lines) => lines,
                    None => Seq::empty(),
                },
            ),
            ..self
        }
    }

    /// The session on a screen `available_width` columns wide: the width
    /// limit follows the screen, unless no character would fit.
    pub open spec fn resize(self, available_width: u16) -> Session {
        if self.style.room(available_width) > 0 {
            Session {
                line: Line { width_limit: self.style.room(available_width), ..self.line },
                ..self
            }
        } else {
            self
        }
    }
}

impl Session {
    /// The session after `action` was performed `times` times.
    pub open spec fn repeat(self, action: Action, times: nat) -> Session
        decreases times,
    {
        if times == 0 {
            self
        } else {
            self.repeat(action, (times - 1) as nat).step(action)
        }
    }
}

/// Every action keeps a session well formed, in its mode and in its box.
pub proof fn step_keeps_wf(s: Session, action: Action)
    requires
        s.wf(),
    ensures
        s.step(action).wf(),
        s.step(action).mode == s.mode,
        s.step(action).style == s.style,
        s.step(action).line.width_limit == s.line.width_limit,
{
}

/// No action but a submit adds to the history or reorders it, and browsing
/// never changes an entry.
pub proof fn only_submit_changes_entries(s: Session, action: Action)
    requires
        s.wf(),
    ensures
        !(action is Submit) ==> s.step(action).pool.entries == s.pool.entries,
        action is Submit && s.line.content.len() > 0 ==> s.step(action).pool.entries
            == s.pool.entries.push(s.line.content),
{
}

/// An empty line is never submitted: the session stays as it is and nothing
/// is handed out to persist. What is handed out to persist is never empty,
/// and comes from a submit alone.
pub proof fn empty_line_is_not_submitted(s: Session, action: Action)
    ensures
        s.line.content.len() == 0 ==> s.step(Action::Submit) == s,
        s.line.content.len() == 0 ==> s.outcome(Action::Submit) == Outcome::Continue,
        s.outcome(action) matches Outcome::Persist(text) ==> action is Submit && text.len() > 0
            && text == s.line.content,
{
}

/// Where `times` steps up from the line being composed lead: to the entry
/// that many places from the end, or the oldest, with the line kept as
/// scratch.
pub proof fn ups_from_live(s: Session, times: nat)
    requires
        s.wf(),
        s.pool.is_live(),
    ensures
        ({
            let u = s.repeat(Action::Up, times);
            let n = s.pool.entries.len();
            &&& u.wf()
            &&& u.pool.entries == s.pool.entries
            &&& u.pool.cursor == if times <= n { n - times } else { 0 }
            &&& (times == 0 || n == 0 ==> u == s)
            &&& (times > 0 && n > 0 ==> u.pool.scratch == s.line.content)
        }),
    decreases times,
{
    if times > 0 {
        ups_from_live(s, (times - 1) as nat);
    }
}

/// Where `times` steps down lead: towards the line that was being composed,
/// which is shown on arrival and stays from then on.
pub proof fn downs_towards_live(s: Session, times: nat)
    requires
        s.wf(),
    ensures
        ({
            let d = s.repeat(Action::Down, times);
            let n = s.pool.entries.len();
            &&& d.wf()
            &&& d.pool.entries == s.pool.entries
            &&& d.pool.scratch == s.pool.scratch
            &&& d.pool.cursor == if s.pool.cursor + times <= n { s.pool.cursor + times } else { n as int }
            &&& (s.pool.is_live() ==> d == s)
            &&& (!s.pool.is_live() && s.pool.cursor + times >= n ==> d.line.content
                == s.pool.scratch)
        }),
    decreases times,
{
    if times > 0 {
        downs_towards_live(s, (times - 1) as nat);
    }
}

/// Browsing loses nothing: from the line being composed, any number of steps
/// up followed by as many steps down shows that line again, at the live
/// position, with the history as it was.
pub proof fn up_then_down_restores(s: Session, times: nat)
    requires
        s.wf(),
        s.pool.is_live(),
    ensures
        ({
            let back = s.repeat(Action::Up, times).repeat(Action::Down, times);
            &&& back.line.content == s.line.content
            &&& back.pool.is_live()
            &&& back.pool.entries == s.pool.entries
        }),
{
    ups_from_live(s, times);
    downs_towards_live(s.repeat(Action::Up, times), times);
}

/// An edit changes the text exactly where it changes its length.
pub proof fn edit_changes_length(line: Line, edit: Edit)
    requires
        line.wf(),
    ensures
        (line.apply(edit).content == line.content) == (line.apply(edit).content.len()
            == line.content.len()),
{
}

/// The input editor.
pub struct Editor {
    mode: Mode,
    buffer: TextBuffer,
    pool: HistoryPool,
    style: BoxStyle,
}

impl View for Editor {
    type V = Session;

    closed spec fn view(&self) -> Session {
        Session { mode: self.mode, line: self.buffer@, pool: self.pool@, style: self.style }
    }
}

impl Editor {
    /// An editor in text mode, with an empty line and no history.
    pub fn new(style: BoxStyle, width_limit: usize) -> (editor: Editor)
        requires
            width_limit > 0,
        ensures
            editor@ == Session::start(style, width_limit as int),
            editor@.wf(),
    {
        Editor {
            mode: Mode::Text,
            buffer: TextBuffer::new(width_limit),
            pool: HistoryPool::new(),
            style,
        }
    }

    /// The current mode.
    pub fn mode(&self) -> (mode: Mode)
        ensures
            mode == self@.mode,
    {
        self.mode
    }

    /// The shape of the input box.
    pub fn style(&self) -> (style: BoxStyle)
        ensures
            style == self@.style,
    {
        self.style
    }

    /// The line under edit.
    pub fn buffer(&self) -> (buffer: &TextBuffer)
        ensures
            buffer@ == self@.line,
    {
        &self.buffer
    }

    /// The history of the current mode.
    pub fn pool(&self) -> (pool: &HistoryPool)
        ensures
            pool@ == self@.pool,
    {
        &self.pool
    }

    /// Performs `action` and says what is left for the caller to do.
    pub fn apply(&mut self, action: Action) -> (effect: Effect)
        ensures
            final(self)@.wf(),
            final(self)@ == old(self)@.step(action),
            effect@ == old(self)@.outcome(action),
    {
        match action {
            Action::Edit(edit) => {
                self.edit(edit);
                Effect::Continue
            },
            Action::Up => {
                self.up();
                Effect::Continue
            },
            Action::Down => {
                self.down();
                Effect::Continue
            },
            Action::Submit => match self.submit() {
                Some(text) => Effect::Persist(text),
                None => Effect::Continue,
            },
            Action::Cancel => {
                if self.cancel() {
                    Effect::Exit
                } else {
                    Effect::Continue
                }
            },
        }
    }

    /// Performs what `key` stands for and says what is left for the caller
    /// to do. A key without a meaning changes nothing.
    pub fn press(&mut self, key: Key) -> (effect: Effect)
        ensures
            final(self)@.wf(),
            final(self)@ == (match action_of(key) {
                Some(action) => old(self)@.step(action),
                None => old(self)@,
            }),
            effect@ == (match action_of(key) {
                Some(action) => old(self)@.outcome(action),
                None => Outcome::Continue,
            }),
    {
        proof {
            use_type_invariant(&self.buffer);
            use_type_invariant(&self.pool);
        }
        match action_for(key) {
            Some(action) => self.apply(action),
            None => Effect::Continue,
        }
    }

    /// Edits the line.
    pub fn edit(&mut self, edit: Edit)
        ensures
            final(self)@.wf(),
            final(self)@ == old(self)@.edit(edit),
    {
        proof {
            use_type_invariant(&self.buffer);
            use_type_invariant(&self.pool);
        }
        let before: usize = self.buffer.len();
        self.buffer.apply(edit);
        proof {
            edit_changes_length(old(self)@.line, edit);
        }
        if self.buffer.len() != before {
            let text = self.buffer.text();
            self.pool.record_live_edit(text.as_str());
        }
    }

    /// Steps up in the history.
    pub fn up(&mut self)
        ensures
            final(self)@.wf(),
            final(self)@ == old(self)@.up(),
    {
        proof {
            use_type_invariant(&self.buffer);
            use_type_invariant(&self.pool);
        }
        let current = self.buffer.text();
        match self.pool.navigate_up(current.as_str()) {
            Some(text) => self.buffer.set_content(text.as_str()),
            None => {},
        }
    }

    /// Steps down in the history.
    pub fn down(&mut self)
        ensures
            final(self)@.wf(),
            final(self)@ == old(self)@.down(),
    {
        proof {
            use_type_invariant(&self.buffer);
            use_type_invariant(&self.pool);
        }
        match self.pool.navigate_down() {
            Some(text) => self.buffer.set_content(text.as_str()),
            None => {},
        }
    }

    /// Submits the line and returns the entry to persist; `None`, and no
    /// change, where the line is empty.
    pub fn submit(&mut self) -> (entry: Option<String>)
        ensures
            final(self)@.wf(),
            final(self)@ == old(self)@.submit(),
            option_view(entry) == (if old(self)@.line.content.len() > 0 {
                Some(old(self)@.line.content)
            } else {
                None
            }),
    {
        proof {
            use_type_invariant(&self.buffer);
            use_type_invariant(&self.pool);
        }
        if self.buffer.is_empty() {
            return None;
        }
        let text = self.buffer.text();
        self.pool.append(text.clone());
        self.buffer.clear();
        Some(text)
    }

    /// Cancels: clears the line, or returns `true`, for leaving, where it is
    /// empty already.
    pub fn cancel(&mut self) -> (leave: bool)
        ensures
            final(self)@.wf(),
            final(self)@ == old(self)@.cancel(),
            leave == (old(self)@.line.content.len() == 0),
    {
        proof {
            use_type_invariant(&self.buffer);
            use_type_invariant(&self.pool);
        }
        if self.buffer.is_empty() {
            return true;
        }
        self.buffer.clear();
        self.pool.record_live_edit("");
        proof {
            reveal_strlit("");
            assert(""@ =~= Seq::<char>::empty());
        }
        false
    }

    /// Switches to `mode`. `lines` is what the mode's history file holds,
    /// oldest first, or `None` where it could not be read: the mode is then
    /// used with an empty history.
    pub fn switch_mode(&mut self, mode: Mode, lines: Option<Vec<String>>)
        ensures
            final(self)@.wf(),
            final(self)@ == old(self)@.switch_mode(
                mode,
                match lines {
                    Some(lines) => Some(lines_view(lines@)),
                    None => None,
                },
            ),
    {
        self.mode = mode;
        match lines {
            Some(lines) => self.pool.load(lines),
            None => {
                self.pool.load(Vec::new());
                assert(lines_view(Seq::<String>::empty()) =~= Seq::<Seq<char>>::empty());
            },
        }
        self.buffer.clear();
    }

    /// Takes the width limit from a screen `available_width` columns wide.
    /// Returns `false`, and changes nothing, where no character would fit.
    pub fn resize(&mut self, available_width: u16) -> (fitted: bool)
        ensures
            final(self)@.wf(),
            final(self)@ == old(self)@.resize(available_width),
            fitted == (old(self)@.style.room(available_width) > 0),
    {
        proof {
            use_type_invariant(&self.buffer);
            use_type_invariant(&self.pool);
        }
        match self.style.width_limit(available_width) {
            Some(limit) => {
                self.buffer.set_width_limit(limit);
                true
            },
            None => false,
        }
    }

    /// Where the box, the text and the cursor go on a screen of `width` by
    /// `height` cells, or `None` where they do not fit.
    pub fn place(&self, width: u16, height: u16) -> (placed: Option<Placement>)
        ensures
            placed == self@.style.place_on(width, height, self@.line.cursor as usize),
    {
        self.style.place(width, height, self.buffer.cursor())
    }
}

} // verus!
