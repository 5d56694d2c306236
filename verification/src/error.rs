//! Error values surfaced to the host, one variant per failure kind the
//! library can report.

use vstd::prelude::*;

use crate::span::Span;

verus! {

/// The runtime category an argument extraction expected to find in a
/// positional slot; named in a `TypeMismatch` report.
#[derive(Clone, Copy, PartialEq, Eq, Structural, Debug)]
pub enum ExpectedType {
    /// A string value.
    Str,
    /// A custom value minted by this plugin.
    PluginCustom,
    /// A handle to a live interpreter session.
    LuaInstance,
}

impl ExpectedType {
    /// The name of the expected category, as shown to a user.
    pub open spec fn spec_name(self) -> Seq<char> {
        match self {
            ExpectedType::Str => "string"@,
            ExpectedType::PluginCustom => "lua plugin value"@,
            ExpectedType::LuaInstance => "lua instance"@,
        }
    }

    pub fn name(&self) -> (s: &str)
        ensures
            s@ == self.spec_name(),
    {
        match self {
            ExpectedType::Str => "string",
            ExpectedType::PluginCustom => "lua plugin value",
            ExpectedType::LuaInstance => "lua instance",
        }
    }
}

/// Everything that can go wrong between receiving a positional argument
/// list and handing a result back to the host.
#[derive(Clone, Debug)]
pub enum Error {
    /// Fewer positional values were supplied than declared; `index` is the
    /// first declared slot that has no value.
    MissingArgument { index: usize },
    /// The value in a slot has the wrong runtime category; `span` points at
    /// the offending value.
    TypeMismatch { expected: ExpectedType, span: Span },
    /// A structurally well-formed handle does not resolve to a live session.
    InvalidHandle,
    /// The embedded engine itself failed; its message is forwarded as-is.
    EngineEvaluation { message: String },
    /// A programmer error: an invariant the code relies on did not hold.
    Bug { message: String },
}

/// Builds the error reported when a value's runtime category does not match
/// the declared one.
pub fn type_error(expected: ExpectedType, span: Span) -> (e: Error)
    ensures
        e == (Error::TypeMismatch { expected, span }),
{
    Error::TypeMismatch { expected, span }
}

/// Builds the diagnostic for a programmer error, distinguishing it from the
/// user-triggerable failure kinds.
pub fn simple_error(message: String) -> (e: Error)
    ensures
        e == (Error::Bug { message }),
{
    Error::Bug { message }
}

} // verus!
