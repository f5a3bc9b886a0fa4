//! Lua plugin → host adapters: the parsers that turn what a plugin
//! script hands back into host values, the close handles returned to
//! Lua, and the dispatch plumbing shared by the adapters.
pub mod handle;
pub mod layout;
pub mod parse;
pub mod window_handle;
pub mod card_handle;
pub mod palette_handle;
pub mod window_component;
pub mod card_component;
pub mod palette_provider;
