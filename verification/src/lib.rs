//! Notes kept as an ordered sequence, a selection cursor over them, an input
//! session for typing a note's text, and the screen that shows all three.

pub mod construct;
pub mod consts;
pub mod control;
pub mod helpers;
pub mod note;
pub mod state;
pub mod text;
