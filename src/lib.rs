//! A terminal text editor engine: a grapheme-aware line model, a document
//! buffer with its edit operations, the mapping between document locations
//! and screen cells, the scrolling rule that keeps the caret visible, and the
//! command state machine that drives them.
pub mod text;
pub mod line;
pub mod view;
pub mod buffer;
pub mod command;
pub mod terminal;
