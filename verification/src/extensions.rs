//! Error-reporting helpers on optional values, and single-slot positional
//! extraction.
//!
//! The helpers turn an absent value into the right kind of error. A library
//! cannot add inherent methods to the std option type, so they live on a
//! crate-local `Option` wrapper around it; `from_std` and `into_std` convert
//! at the boundary.

use vstd::prelude::*;

use crate::convert::append_str;
use crate::error::{simple_error, type_error, Error, ExpectedType};
use crate::from_value::FromValue;
use crate::span::Span;
use crate::value::NuValue;

verus! {

/// A crate-local view of `core::option::Option`, carrying the helpers that
/// report an absent value as the right kind of error.
pub struct Option<T> {
    pub value: core::option::Option<T>,
}

impl<T> Option<T> {
    pub fn from_std(value: core::option::Option<T>) -> (o: Option<T>)
        ensures
            o.value == value,
    {
        Option { value }
    }

    pub fn into_std(self) -> (o: core::option::Option<T>)
        ensures
            o == self.value,
    {
        self.value
    }

    /// An absent value is a user-facing type error: the caller expected a
    /// value of the named category at the given span.
    pub fn ok_or_type_error(self, expected: ExpectedType, span: Span) -> (r: Result<T, Error>)
        ensures
            r == match self.value {
                core::option::Option::Some(v) => Ok::<T, Error>(v),
                core::option::Option::None => Err::<T, Error>(
                    Error::TypeMismatch { expected, span },
                ),
            },
    {
        match self.value {
            core::option::Option::Some(v) => Ok(v),
            core::option::Option::None => Err(type_error(expected, span)),
        }
    }

    /// An absent value is a programmer error: the message, computed only
    /// when needed, is reported under the `BUG:` prefix that distinguishes
    /// such failures from ordinary user errors.
    pub fn ok_or_else_bug<F: FnOnce() -> String>(self, msg_fn: F) -> (r: Result<T, Error>)
        requires
            self.value is None ==> msg_fn.requires(()),
        ensures
            self.value matches Some(v) ==> r == Ok::<T, Error>(v),
            self.value is None ==> (r matches Err(e) && e matches Error::Bug { message }
                && exists|m: String| msg_fn.ensures((), m) && message@ == "BUG: "@ + m@),
    {
        match self.value {
            core::option::Option::Some(v) => Ok(v),
            core::option::Option::None => {
                let msg = msg_fn();
                let ghost produced = msg;
                let mut full = "BUG: ".to_owned();
                append_str(&mut full, msg.as_str());
                proof {
                    assert(msg_fn.ensures((), produced) && full@ == "BUG: "@ + produced@);
                }
                Err(simple_error(full))
            },
        }
    }
}

/// Reads the positional slot at `index` and extracts it as `T`. A slot the
/// command never declared is a programmer error, reported as a bug rather
/// than as a user-facing message.
pub fn arg<T: FromValue>(positional: &[NuValue], index: usize) -> (r: Result<T::Output, Error>)
    ensures
        index < positional@.len() ==> r == (if T::spec_matches(positional@[index as int]) {
            Ok::<T::Output, Error>(T::spec_extract(positional@[index as int]))
        } else {
            Err::<T::Output, Error>(
                Error::TypeMismatch {
                    expected: T::spec_expected(),
                    span: positional@[index as int].span,
                },
            )
        }),
        index >= positional@.len() ==> (r matches Err(e) && e is Bug),
{
    let slot = Option::from_std(
        if index < positional.len() {
            core::option::Option::Some(&positional[index])
        } else {
            core::option::Option::None
        },
    );
    let value = match slot.ok_or_else_bug(|| "expected a declared positional slot".to_owned()) {
        Ok(value) => value,
        Err(e) => {
            return Err(e);
        },
    };
    T::from_value(value)
}

} // verus!
