//! The custom-value envelope this plugin embeds in host values.

use vstd::prelude::*;

use crate::custom::lua::LuaHandle;
use crate::error::Error;
use crate::span::Span;
use crate::value::{NuValue, ValueData};

verus! {

/// Every kind of custom value this plugin mints. The host stores such a
/// value opaquely and hands it back on later calls.
#[derive(Clone, Copy, PartialEq, Eq, Structural, Debug)]
pub enum PluginValue {
    /// A handle to an interpreter session.
    Lua(LuaHandle),
}

impl PluginValue {
    /// Narrows the envelope to a session handle.
    pub fn as_lua(&self, _span: Span) -> (r: Result<&LuaHandle, Error>)
        ensures
            match self {
                PluginValue::Lua(lua) => r == Ok::<&LuaHandle, Error>(lua),
            },
    {
        match self {
            PluginValue::Lua(lua) => Ok(lua),
        }
    }

    /// The type name the host shows for this custom value.
    pub fn type_label(&self) -> (s: &str)
        ensures
            s@ == "Lua"@,
    {
        match self {
            PluginValue::Lua(_) => "Lua",
        }
    }

    /// The plain value the host renders in place of the opaque one.
    pub fn to_base_value(&self, span: Span) -> (v: NuValue)
        ensures
            v.span == span,
            v.data matches ValueData::Str { val } && val@ == "<Lua>"@,
    {
        match self {
            PluginValue::Lua(lua) => lua.to_base_value(span),
        }
    }

    /// Whether the host must notify the plugin when it drops a value of this
    /// kind; session handles need the notification so their session can be
    /// reclaimed.
    pub fn notify_plugin_on_drop(&self) -> (b: bool)
        ensures
            b,
    {
        true
    }
}

} // verus!
