//! Terminal rendering core: a frame buffer of character cells, drawable glyphs,
//! the escape sequences that position and switch the screen, and the console
//! mode state machine that raw mode and the alternate buffer rest on.
pub mod graphics;
pub mod error;
pub mod escape;
pub mod screen;
pub mod terminal;
