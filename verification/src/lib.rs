//! A single-line input editor with per-mode history.
//!
//! The crate holds the editing state machine only: a bounded text buffer with a
//! cursor, a history pool that can be browsed and forked on edit, the line
//! format of the history files, and the controller that ties them to one of
//! three input modes. Terminals and files are the caller's business.

pub mod archive;
pub mod editor;
pub mod history;
pub mod layout;
pub mod mode;
pub mod store;
pub mod text;
pub mod text_buffer;
