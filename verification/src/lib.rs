//! ttymap — terminal map viewer: key handling, plugin bookkeeping and
//! the decision logic of the Lua plugin bridge.
pub mod frontend;
pub mod keys;
pub mod map;
pub mod text;
pub mod input;
pub mod app_msg;
pub mod command;
pub mod keymap;
pub mod lua;
pub mod logging;
