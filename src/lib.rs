//! A modal, vi-flavoured line editor engine: the text buffer, the cursor and
//! viewport coordinates, the key dispatcher and the undo log.
pub mod text;
pub mod action;
pub mod buffer;
pub mod model;
pub mod editor;
pub mod keys;
pub mod laws;
pub mod theme;
pub mod render;
pub mod highlight;
