//! A small terminal text viewer: grapheme-aware lines, a document buffer,
//! and a viewport that keeps a caret on screen.

pub mod buffer;
pub mod editor;
pub mod editorcommand;
pub mod line;
pub mod terminal;
mod text;
pub mod view;
