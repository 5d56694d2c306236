//! A plugin library that lets a host shell drive embedded Lua interpreters.
//!
//! The library has two halves. A session registry ([`plugin::Plugin`]) maps
//! opaque, copyable handles to live interpreter instances, with create,
//! lookup and idempotent destroy. A typed argument-binding framework
//! ([`from_value::FromValue`], [`from_values::FromValues`],
//! [`command::Command`]) converts the host's untyped positional values into
//! statically typed handler inputs and derives the command's declared
//! signature from the same type information.

pub mod command;
pub mod convert;
pub mod custom;
pub mod engine;
pub mod error;
pub mod extensions;
pub mod from_value;
pub mod from_values;
pub mod plugin;
pub mod span;
pub mod value;

pub use custom::{LuaHandle, PluginValue};
pub use error::{Error, ExpectedType};
pub use from_value::{FromValue, SyntaxShape};
pub use from_values::{ArgSignature, FromValues};
pub use plugin::Plugin;
pub use span::Span;
pub use value::{NuValue, ValueData};
