//! Input subsystem — translation of raw terminal events into user
//! commands: the key binding table, the keyboard router and the mouse
//! adapter.
pub mod keymap;
pub mod keyboard;
pub mod mouse;
