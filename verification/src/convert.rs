//! Conversions between dynamic values and host values.

pub mod array;
pub mod boolean;
pub mod bytes;
pub mod fixnum;
pub mod float;
pub mod nilable;
pub mod string;

use vstd::prelude::*;
use vstd::string::StringExecFns;
use crate::value::types::{Ruby, Rust, Tag};
use crate::value::Value;

verus! {

/// Infallible conversion of a host value `T` into `Self`.
pub trait Convert<I, T>: Sized {
    type From;

    type To;

    /// Whether `out` is what `value` converts to.
    spec fn converts(value: T, out: Self) -> bool;

    /// Convert `value`.
    fn convert(interp: &I, value: T) -> (r: Self)
        ensures
            Self::converts(value, r),
    ;
}

/// Failure of a conversion: the kind of value that was offered and the kind
/// that was asked for.
#[derive(Clone, Copy, Debug, PartialEq, Eq, Structural)]
pub struct Error<F, T> {
    pub from: F,
    pub to: T,
}

/// Fallible conversion of a value `T` into `Self`.
pub trait TryConvert<I, T>: Sized {
    type From;

    type To;

    /// Whether `out` is the outcome of converting `value`.
    spec fn try_converts(value: T, out: Result<Self, Error<Self::From, Self::To>>) -> bool;

    /// Try to convert `value`.
    fn try_convert(interp: &I, value: T) -> (r: Result<Self, Error<Self::From, Self::To>>)
        ensures
            Self::try_converts(value, r),
    ;
}

/// Every infallible conversion is a fallible conversion that always
/// succeeds, with the same result.
impl<I, F, T> TryConvert<I, F> for T where T: Convert<I, F> {
    type From = <T as Convert<I, F>>::From;

    type To = <T as Convert<I, F>>::To;

    open spec fn try_converts(value: F, out: Result<Self, Error<Self::From, Self::To>>) -> bool {
        match out {
            Ok(v) => <T as Convert<I, F>>::converts(value, v),
            Err(_) => false,
        }
    }

    fn try_convert(interp: &I, value: F) -> (r: Result<Self, Error<Self::From, Self::To>>) {
        Ok(T::convert(interp, value))
    }
}

impl<F: Tag, T: Tag> Error<F, T> {
    /// The text of [`Error::message`].
    pub open spec fn message_spec(&self) -> Seq<char> {
        "failed to convert from "@ + self.from.name_spec() + " to "@ + self.to.name_spec()
    }

    /// The diagnostic for this failure.
    pub fn message(&self) -> (r: String)
        ensures
            r@ == self.message_spec(),
    {
        let from = self.from.name();
        let to = self.to.name();
        String::from_str("failed to convert from ").concat(from.as_str()).concat(" to ").concat(
            to.as_str(),
        )
    }

    /// The text of [`Error::debug_message`].
    pub open spec fn debug_message_spec(&self) -> Seq<char> {
        "mruby conversion error: "@ + self.message_spec()
    }

    /// The diagnostic for this failure, marked as a conversion error.
    pub fn debug_message(&self) -> (r: String)
        ensures
            r@ == self.debug_message_spec(),
    {
        let message = self.message();
        String::from_str("mruby conversion error: ").concat(message.as_str())
    }
}

/// Any value can be dropped on the way to the host.
impl<I, V> Convert<I, V> for () where V: Value<I> {
    type From = Ruby;

    type To = Rust;

    open spec fn converts(value: V, out: ()) -> bool {
        true
    }

    fn convert(_interp: &I, _value: V) -> (r: ()) {
    }
}

} // verus!
