//! A modal, vim-style text viewer core: cursor navigation clamped to the
//! terminal's current size, and a flicker-free redraw described as a list of
//! screen operations that the host program carries out.

pub mod editor;
pub mod key;
pub mod lemmas;
pub mod screen;
