//! Editing core of a modal, terminal-resident text editor: a line-oriented
//! text buffer and a modal keystroke interpreter.

pub mod document;
pub mod key;
pub mod modal;
pub mod persist;
pub mod position;
pub mod row;
pub mod text;
pub mod text_target;
