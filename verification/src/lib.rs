//! The editing core of a modal text editor.
//!
//! The crate owns the text of documents, tracks cursor and selection, records
//! edits in a branching undo history, computes word motions over Unicode
//! text, resolves chord sequences into commands, and dispatches commands by
//! name. Everything is verified against contracts stated over mathematical
//! views of the data; what rests on `ropey` and on the Unicode tables is
//! stated in [`rope`], [`chars`] and [`strings`].

pub mod buffer;
pub mod buffer_manager;
pub mod chars;
pub mod command;
pub mod commands;
pub mod editor;
pub mod editor_state;
pub mod history;
pub mod keymap;
pub mod lines;
pub mod mini_buffer;
pub mod motion;
pub mod movement;
pub mod parse;
pub mod position;
pub mod project;
pub mod rope;
pub mod strings;
pub mod theme;
pub mod undotree;
