//! Lua plugin runtime: the host-side bookkeeping and decision logic of
//! the scripted-plugin bridge.
pub mod runtimepath;
pub mod op;
pub mod sender;
pub mod api;
pub mod value;
pub mod bridge;
pub mod ttymap;
pub mod host;
pub mod plugins;
pub mod register;
pub mod map_api;
pub mod init;
pub mod registry;
pub mod load;
pub mod config;

pub use plugins::register_builtin_plugins;
pub use register::push_plugin_entry;
pub use ttymap::LuaHostShared;
