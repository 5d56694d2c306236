//! The trusted boundary around the embedded Lua engine and the identifier
//! source.
//!
//! Everything in this module is believed, not proved: each item's contract
//! is checked against the mlua and uuid sources by hand. The engine is an
//! opaque stateful machine, so the wrappers promise nothing about what an
//! evaluation returns; the verified conversion and registry code is written
//! to be correct for every value that can come back.

use vstd::prelude::*;

use crate::convert::OpaqueKind;

verus! {

#[verifier::external_type_specification]
#[verifier::external_body]
pub struct ExLua(mlua::Lua);

#[verifier::external_type_specification]
#[verifier::external_body]
pub struct ExLuaValue(mlua::Value);

#[verifier::external_type_specification]
#[verifier::external_body]
pub struct ExLuaString(mlua::LuaString);

#[verifier::external_type_specification]
#[verifier::external_body]
pub struct ExLuaTable(mlua::Table);

/// Relies on mlua's `Clone for Lua`: the clone is another shared reference
/// to the same interpreter, not a copy of its state.
pub assume_specification[ <mlua::Lua as Clone>::clone ](lua: &mlua::Lua) -> mlua::Lua;

/// Relies on `mlua::Lua::new`: a fresh interpreter instance with the safe
/// subset of the standard libraries loaded.
#[verifier::external_body]
pub(crate) fn engine_new() -> mlua::Lua {
    mlua::Lua::new()
}

/// Relies on `mlua::Lua::load` and `mlua::Chunk::eval`: evaluates the code
/// against the interpreter's current state and returns the resulting value,
/// or the engine's own error rendered as text. The result depends on the
/// interpreter's mutable state, so nothing more can be promised of it.
#[verifier::external_body]
pub(crate) fn engine_eval(lua: &mlua::Lua, code: &str) -> Result<mlua::Value, String> {
    match lua.load(code).eval::<mlua::Value>() {
        Ok(value) => Ok(value),
        Err(e) => Err(e.to_string()),
    }
}

/// Relies on `mlua::Value::is_nil`.
#[verifier::external_body]
pub(crate) fn value_is_nil(value: &mlua::Value) -> bool {
    value.is_nil()
}

/// Relies on `mlua::Value::as_boolean`: `Some` exactly for boolean values.
#[verifier::external_body]
pub(crate) fn value_as_bool(value: &mlua::Value) -> Option<bool> {
    value.as_boolean()
}

/// Relies on `mlua::Value::as_integer`: `Some` exactly for integer numbers.
#[verifier::external_body]
pub(crate) fn value_as_int(value: &mlua::Value) -> Option<i64> {
    value.as_integer()
}

/// Relies on `mlua::Value::as_number`: `Some` exactly for floating-point
/// numbers, handed on as the raw bit pattern.
#[verifier::external_body]
pub(crate) fn value_number_bits(value: &mlua::Value) -> Option<u64> {
    value.as_number().map(|n| n.to_bits())
}

/// Relies on `mlua::Value::as_string`: `Some` exactly for engine strings.
#[verifier::external_body]
pub(crate) fn value_as_string(value: &mlua::Value) -> Option<mlua::LuaString> {
    value.as_string().cloned()
}

/// Relies on `mlua::Value::as_table`: `Some` exactly for tables.
#[verifier::external_body]
pub(crate) fn value_as_table(value: &mlua::Value) -> Option<mlua::Table> {
    value.as_table().cloned()
}

/// Relies on `mlua::Value::is_error`: true exactly for the engine's own
/// error values.
#[verifier::external_body]
pub(crate) fn value_is_error(value: &mlua::Value) -> bool {
    value.is_error()
}

/// Tells the remaining reference-like variants of `mlua::Value` apart, one
/// arm per variant; `None` for every variant the other accessors cover.
#[verifier::external_body]
pub(crate) fn value_opaque_kind(value: &mlua::Value) -> Option<OpaqueKind> {
    match value {
        mlua::Value::LightUserData(_) => Some(OpaqueKind::LightUserData),
        mlua::Value::Function(_) => Some(OpaqueKind::Function),
        mlua::Value::Thread(_) => Some(OpaqueKind::Thread),
        mlua::Value::UserData(_) => Some(OpaqueKind::UserData),
        mlua::Value::Other(_) => Some(OpaqueKind::Other),
        _ => None,
    }
}

/// Relies on `mlua::Value::to_pointer`: a stable address for reference-like
/// values, rendered as text. Addresses differ between processes, so nothing
/// is promised about the text.
#[verifier::external_body]
pub(crate) fn value_addr(value: &mlua::Value) -> String {
    format!("{:p}", value.to_pointer())
}

/// Relies on `mlua::LuaString::to_str`: `Some` exactly when the engine
/// string is valid UTF-8.
#[verifier::external_body]
pub(crate) fn lua_string_utf8(s: &mlua::LuaString) -> Option<String> {
    match s.to_str() {
        Ok(t) => Some(t.to_string()),
        Err(_) => None,
    }
}

/// Relies on `mlua::LuaString::as_bytes`: the raw bytes of the engine
/// string.
#[verifier::external_body]
pub(crate) fn lua_string_bytes(s: &mlua::LuaString) -> Vec<u8> {
    s.as_bytes().to_vec()
}

/// Relies on `mlua::Table::pairs`: the table's key-value pairs, in the
/// engine's own iteration order, which is unspecified.
#[verifier::external_body]
pub(crate) fn table_entries(t: &mlua::Table) -> Result<Vec<(mlua::Value, mlua::Value)>, String> {
    let pairs: Result<Vec<_>, mlua::Error> = t.pairs::<mlua::Value, mlua::Value>().collect();
    pairs.map_err(|e| e.to_string())
}

/// Relies on `uuid::Uuid::new_v4`: a random identifier. Randomness promises
/// nothing, so callers check freshness against the registry themselves.
#[verifier::external_body]
pub(crate) fn fresh_uuid() -> u128 {
    uuid::Uuid::new_v4().as_u128()
}

} // verus!
