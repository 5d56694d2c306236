//! The library's model of the host's untyped values: what a positional
//! argument or a command result looks like to the binding framework.

use vstd::prelude::*;

use crate::custom::lua::LuaHandle;
use crate::custom::plugin_value::PluginValue;
use crate::error::{type_error, Error, ExpectedType};
use crate::span::Span;

verus! {

/// The payload of one untyped host value.
#[derive(Debug)]
pub enum ValueData {
    /// The absent value.
    Nothing,
    Bool { val: bool },
    Int { val: i64 },
    /// A floating-point number, carried as its raw bit pattern; the library
    /// never computes with it, only passes it through.
    Float { bits: u64 },
    Str { val: String },
    Binary { val: Vec<u8> },
    List { vals: Vec<NuValue> },
    /// An ordered sequence of named entries.
    Record { entries: Vec<(String, NuValue)> },
    /// An opaque value minted by this plugin.
    Custom { val: PluginValue },
}

/// One untyped host value together with the source span it came from.
#[derive(Debug)]
pub struct NuValue {
    pub data: ValueData,
    pub span: Span,
}

impl NuValue {
    pub fn nothing(span: Span) -> (v: NuValue)
        ensures
            v == (NuValue { data: ValueData::Nothing, span }),
    {
        NuValue { data: ValueData::Nothing, span }
    }

    pub fn bool(val: bool, span: Span) -> (v: NuValue)
        ensures
            v == (NuValue { data: ValueData::Bool { val }, span }),
    {
        NuValue { data: ValueData::Bool { val }, span }
    }

    pub fn integer(val: i64, span: Span) -> (v: NuValue)
        ensures
            v == (NuValue { data: ValueData::Int { val }, span }),
    {
        NuValue { data: ValueData::Int { val }, span }
    }

    /// A floating-point value, given as the number's raw bit pattern.
    pub fn float_from_bits(bits: u64, span: Span) -> (v: NuValue)
        ensures
            v == (NuValue { data: ValueData::Float { bits }, span }),
    {
        NuValue { data: ValueData::Float { bits }, span }
    }

    pub fn string(val: String, span: Span) -> (v: NuValue)
        ensures
            v == (NuValue { data: ValueData::Str { val }, span }),
    {
        NuValue { data: ValueData::Str { val }, span }
    }

    pub fn binary(val: Vec<u8>, span: Span) -> (v: NuValue)
        ensures
            v == (NuValue { data: ValueData::Binary { val }, span }),
    {
        NuValue { data: ValueData::Binary { val }, span }
    }

    pub fn list(vals: Vec<NuValue>, span: Span) -> (v: NuValue)
        ensures
            v == (NuValue { data: ValueData::List { vals }, span }),
    {
        NuValue { data: ValueData::List { vals }, span }
    }

    pub fn record(entries: Vec<(String, NuValue)>, span: Span) -> (v: NuValue)
        ensures
            v == (NuValue { data: ValueData::Record { entries }, span }),
    {
        NuValue { data: ValueData::Record { entries }, span }
    }

    pub fn custom(val: PluginValue, span: Span) -> (v: NuValue)
        ensures
            v == (NuValue { data: ValueData::Custom { val }, span }),
    {
        NuValue { data: ValueData::Custom { val }, span }
    }

    pub fn span(&self) -> (s: Span)
        ensures
            s == self.span,
    {
        self.span
    }

    /// Reads the value as a string slice, or reports which category was
    /// expected.
    pub fn as_str(&self) -> (r: Result<&str, Error>)
        ensures
            match self.data {
                ValueData::Str { val } => r matches Ok(s) && s@ == val@,
                _ => r == Err::<&str, Error>(
                    Error::TypeMismatch { expected: ExpectedType::Str, span: self.span },
                ),
            },
    {
        match &self.data {
            ValueData::Str { val } => Ok(val.as_str()),
            _ => Err(type_error(ExpectedType::Str, self.span)),
        }
    }

    /// Narrows the value to a custom value minted by this plugin.
    pub fn as_plugin_value(&self) -> (r: Result<&PluginValue, Error>)
        ensures
            match self.data {
                ValueData::Custom { val } => r matches Ok(p) && *p == val,
                _ => r == Err::<&PluginValue, Error>(
                    Error::TypeMismatch { expected: ExpectedType::PluginCustom, span: self.span },
                ),
            },
    {
        match &self.data {
            ValueData::Custom { val } => Ok(val),
            _ => Err(type_error(ExpectedType::PluginCustom, self.span)),
        }
    }

    /// Narrows the value to a session handle.
    pub fn as_lua(&self) -> (r: Result<LuaHandle, Error>)
        ensures
            match self.data {
                ValueData::Custom { val: PluginValue::Lua(lua) } => r == Ok::<LuaHandle, Error>(lua),
                _ => r == Err::<LuaHandle, Error>(
                    Error::TypeMismatch { expected: ExpectedType::LuaInstance, span: self.span },
                ),
            },
    {
        match &self.data {
            ValueData::Custom { val: PluginValue::Lua(lua) } => Ok(*lua),
            _ => Err(type_error(ExpectedType::LuaInstance, self.span)),
        }
    }
}

} // verus!
