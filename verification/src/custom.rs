//! Custom values this plugin mints and later receives back from the host.

pub mod lua;
pub mod plugin_value;

pub use lua::LuaHandle;
pub use plugin_value::PluginValue;
