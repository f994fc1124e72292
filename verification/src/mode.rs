//! The three input modes and where each keeps its history.

use vstd::prelude::*;
use vstd::string::*;

verus! {

/// What the input is taken to be. Each mode has a history of its own.
#[derive(Clone, Copy, Debug, PartialEq, Eq, Structural)]
pub enum Mode {
    /// Free text.
    Text,
    /// A path in the file system.
    Path,
    /// A shell command.
    Command,
}

/// The directory of the history files, relative to the user's home.
pub const DATA_DIRECTORY: &'static str = ".local/share/termite/";

/// The name of the history file of `mode`.
pub open spec fn filename_of(mode: Mode) -> Seq<char> {
    match mode {
        Mode::Text => "text_history.txt"@,
        Mode::Path => "path_history.txt"@,
        Mode::Command => "command_history.txt"@,
    }
}

/// No two modes share a history file.
pub proof fn filenames_differ(a: Mode, b: Mode)
    requires
        a != b,
    ensures
        filename_of(a) != filename_of(b),
{
    reveal_strlit("text_history.txt");
    reveal_strlit("path_history.txt");
    reveal_strlit("command_history.txt");
    assert("text_history.txt"@[0] == 't');
    assert("path_history.txt"@[0] == 'p');
    assert("command_history.txt"@[0] == 'c');
}

impl Mode {
    /// The name of this mode's history file.
    pub fn filename(&self) -> (name: &'static str)
        ensures
            name@ == filename_of(*self),
    {
        match self {
            Mode::Text => "text_history.txt",
            Mode::Path => "path_history.txt",
            Mode::Command => "command_history.txt",
        }
    }

    /// The path of this mode's history file, relative to the user's home.
    pub fn relative_path(&self) -> (path: String)
        ensures
            path@ == DATA_DIRECTORY@ + filename_of(*self),
    {
        String::from_str(DATA_DIRECTORY).concat(self.filename())
    }
}

} // verus!
