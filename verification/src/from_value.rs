//! Per-type argument extraction: how to read one typed value out of one
//! untyped positional slot, and how to describe that slot's shape.

use vstd::prelude::*;

use crate::custom::lua::LuaHandle;
use crate::custom::plugin_value::PluginValue;
use crate::error::{type_error, Error, ExpectedType};
use crate::value::{NuValue, ValueData};

verus! {

/// The declared shape of one argument slot, drawn from the host's own
/// argument-shape vocabulary.
#[derive(Clone, Copy, PartialEq, Eq, Structural, Debug)]
pub enum SyntaxShape {
    /// The slot takes a string.
    Str,
    /// The slot takes any value, including opaque custom values.
    Any,
}

/// The capability of reading one value of type `Self` out of one untyped
/// positional slot.
///
/// The three spec functions pin the exec behaviour completely: `from_value`
/// succeeds exactly on the values `spec_matches` accepts, returns exactly
/// `spec_extract` of its input, and otherwise reports a `TypeMismatch`
/// naming `spec_expected` and the input's span.
pub trait FromValue: Sized {
    /// What one extracted value looks like.
    type Output;

    /// The shape declared for slots of this type.
    spec fn spec_shape() -> SyntaxShape;

    /// The category named when extraction fails.
    spec fn spec_expected() -> ExpectedType;

    /// Whether extraction succeeds on this value.
    spec fn spec_matches(v: NuValue) -> bool;

    /// The value extraction returns, on values it accepts.
    spec fn spec_extract(v: NuValue) -> Self::Output
        recommends
            Self::spec_matches(v),
    ;

    /// The static shape used to build the command signature; independent of
    /// any particular value.
    fn syntax_shape() -> (s: SyntaxShape)
        ensures
            s == Self::spec_shape(),
    ;

    /// Converts one untyped value into the statically expected type.
    fn from_value(value: &NuValue) -> (r: Result<Self::Output, Error>)
        ensures
            Self::spec_matches(*value) ==> r == Ok::<Self::Output, Error>(
                Self::spec_extract(*value),
            ),
            !Self::spec_matches(*value) ==> r == Err::<Self::Output, Error>(
                Error::TypeMismatch { expected: Self::spec_expected(), span: value.span },
            ),
    ;
}

impl FromValue for String {
    type Output = String;

    open spec fn spec_shape() -> SyntaxShape {
        SyntaxShape::Str
    }

    open spec fn spec_expected() -> ExpectedType {
        ExpectedType::Str
    }

    open spec fn spec_matches(v: NuValue) -> bool {
        v.data is Str
    }

    open spec fn spec_extract(v: NuValue) -> String {
        v.data->Str_val
    }

    fn syntax_shape() -> (s: SyntaxShape) {
        SyntaxShape::Str
    }

    fn from_value(value: &NuValue) -> (r: Result<String, Error>) {
        match &value.data {
            ValueData::Str { val } => Ok(val.clone()),
            _ => Err(type_error(ExpectedType::Str, value.span)),
        }
    }
}

/// Extraction of a session handle checks the value's shape only. Whether the
/// session behind a well-shaped handle is still alive is the registry's
/// question, answered at lookup time: a stale handle extracts fine and the
/// command then reports `InvalidHandle` (see `Plugin::eval_lua`). Extraction
/// therefore stays a pure function of the value, and a wrong-shaped later
/// slot is reported before a stale-but-well-shaped earlier one.
impl FromValue for LuaHandle {
    type Output = LuaHandle;

    open spec fn spec_shape() -> SyntaxShape {
        SyntaxShape::Any
    }

    open spec fn spec_expected() -> ExpectedType {
        ExpectedType::LuaInstance
    }

    open spec fn spec_matches(v: NuValue) -> bool {
        v.data matches ValueData::Custom { val: PluginValue::Lua(_) }
    }

    open spec fn spec_extract(v: NuValue) -> LuaHandle {
        v.data->Custom_val->Lua_0
    }

    fn syntax_shape() -> (s: SyntaxShape) {
        SyntaxShape::Any
    }

    fn from_value(value: &NuValue) -> (r: Result<LuaHandle, Error>) {
        value.as_lua()
    }
}

} // verus!
