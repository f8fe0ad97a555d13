//! Optional values across the boundary: the host's absent value is the
//! runtime's `nil`.

pub mod array;

use vstd::prelude::*;
use crate::convert::{Convert, Error, TryConvert};
use crate::value::types::{Float, Int, Ruby, Rust};
use crate::value::{Dynamic, DynamicView};
use crate::Artichoke;

verus! {

/// Whether `out` is what an optional host value converts to: `nil` for the
/// absent value, and for a present one what it converts to by itself.
pub open spec fn nilable_converts<T>(value: Option<T>, out: Dynamic) -> bool where
    Dynamic: Convert<Artichoke, T>,
 {
    match value {
        Some(present) => <Dynamic as Convert<Artichoke, T>>::converts(present, out),
        None => out@ == DynamicView::Nil,
    }
}

/// Convert an optional host value. The absent value becomes `nil` and the
/// converter of `T` is not asked.
pub fn convert_nilable<T>(interp: &Artichoke, value: Option<T>) -> (r: Dynamic) where
    Dynamic: Convert<Artichoke, T>,

    ensures
        nilable_converts(value, r),
{
    match value {
        Some(present) => <Dynamic as Convert<Artichoke, T>>::convert(interp, present),
        None => Dynamic::Nil,
    }
}

/// Whether `out` is the outcome of converting `value` to an optional host
/// value: absent for `nil`, and for any other value the outcome of its
/// conversion to `T`.
pub open spec fn nilable_try_converts<T>(value: Dynamic, out: Result<Option<T>, Error<Ruby, Rust>>) -> bool where
    T: TryConvert<Artichoke, Dynamic, From = Ruby, To = Rust>,
 {
    match value {
        Dynamic::Nil => out == Ok::<Option<T>, Error<Ruby, Rust>>(None),
        _ => match out {
            Ok(Some(present)) => T::try_converts(value, Ok(present)),
            Ok(None) => false,
            Err(e) => T::try_converts(value, Err(e)),
        },
    }
}

/// Convert a dynamic value to an optional host value.
pub fn try_convert_nilable<T>(interp: &Artichoke, value: Dynamic) -> (r: Result<
    Option<T>,
    Error<Ruby, Rust>,
>) where T: TryConvert<Artichoke, Dynamic, From = Ruby, To = Rust>
    ensures
        nilable_try_converts(value, r),
{
    match value {
        Dynamic::Nil => Ok(None),
        other => match T::try_convert(interp, other) {
            Ok(present) => Ok(Some(present)),
            Err(e) => Err(e),
        },
    }
}

/// The absent value goes to the runtime and comes back absent, whatever the
/// type of the present values.
pub proof fn absent_round_trip<T>(d: Dynamic, r: Result<Option<T>, Error<Ruby, Rust>>) where
    Dynamic: Convert<Artichoke, T>,
    T: TryConvert<Artichoke, Dynamic, From = Ruby, To = Rust>,

    requires
        nilable_converts(None::<T>, d),
        nilable_try_converts(d, r),
    ensures
        r == Ok::<Option<T>, Error<Ruby, Rust>>(None),
{
}

/// A present value whose own conversion is not `nil` goes and comes back as
/// it does without the option: the outcome is the outcome of the conversion
/// to `T`, present where that succeeds.
pub proof fn present_round_trip<T>(
    v: T,
    d: Dynamic,
    r: Result<Option<T>, Error<Ruby, Rust>>,
) where
    Dynamic: Convert<Artichoke, T>,
    T: TryConvert<Artichoke, Dynamic, From = Ruby, To = Rust>,

    requires
        nilable_converts(Some(v), d),
        !(d is Nil),
        nilable_try_converts(d, r),
    ensures
        <Dynamic as Convert<Artichoke, T>>::converts(v, d),
        match r {
            Ok(Some(back)) => T::try_converts(d, Ok(back)),
            Ok(None) => false,
            Err(e) => T::try_converts(d, Err(e)),
        },
{
}

impl Convert<Artichoke, Option<Dynamic>> for Dynamic {
    type From = Rust;

    type To = Ruby;

    open spec fn converts(value: Option<Dynamic>, out: Dynamic) -> bool {
        match value {
            Some(present) => out == present,
            None => out@ == DynamicView::Nil,
        }
    }

    fn convert(_interp: &Artichoke, value: Option<Dynamic>) -> (r: Dynamic) {
        match value {
            Some(present) => present,
            None => Dynamic::Nil,
        }
    }
}

impl TryConvert<Artichoke, Dynamic> for Option<Dynamic> {
    type From = Ruby;

    type To = Rust;

    open spec fn try_converts(value: Dynamic, out: Result<Option<Dynamic>, Error<Ruby, Rust>>) -> bool {
        match value {
            Dynamic::Nil => out == Ok::<Option<Dynamic>, Error<Ruby, Rust>>(None),
            _ => out == Ok::<Option<Dynamic>, Error<Ruby, Rust>>(Some(value)),
        }
    }

    fn try_convert(_interp: &Artichoke, value: Dynamic) -> (r: Result<
        Option<Dynamic>,
        Error<Ruby, Rust>,
    >) {
        match value {
            Dynamic::Nil => Ok(None),
            other => Ok(Some(other)),
        }
    }
}

impl Convert<Artichoke, Option<Float>> for Dynamic {
    type From = Rust;

    type To = Ruby;

    open spec fn converts(value: Option<Float>, out: Dynamic) -> bool {
        nilable_converts(value, out)
    }

    fn convert(interp: &Artichoke, value: Option<Float>) -> (r: Dynamic) {
        convert_nilable(interp, value)
    }
}

impl TryConvert<Artichoke, Dynamic> for Option<Float> {
    type From = Ruby;

    type To = Rust;

    open spec fn try_converts(value: Dynamic, out: Result<Option<Float>, Error<Ruby, Rust>>) -> bool {
        nilable_try_converts(value, out)
    }

    fn try_convert(interp: &Artichoke, value: Dynamic) -> (r: Result<
        Option<Float>,
        Error<Ruby, Rust>,
    >) {
        try_convert_nilable(interp, value)
    }
}

impl Convert<Artichoke, Option<Int>> for Dynamic {
    type From = Rust;

    type To = Ruby;

    open spec fn converts(value: Option<Int>, out: Dynamic) -> bool {
        nilable_converts(value, out)
    }

    fn convert(interp: &Artichoke, value: Option<Int>) -> (r: Dynamic) {
        convert_nilable(interp, value)
    }
}

impl<'a> Convert<Artichoke, Option<&'a str>> for Dynamic {
    type From = Rust;

    type To = Ruby;

    open spec fn converts(value: Option<&'a str>, out: Dynamic) -> bool {
        nilable_converts(value, out)
    }

    fn convert(interp: &Artichoke, value: Option<&'a str>) -> (r: Dynamic) {
        convert_nilable(interp, value)
    }
}

impl Convert<Artichoke, Option<String>> for Dynamic {
    type From = Rust;

    type To = Ruby;

    open spec fn converts(value: Option<String>, out: Dynamic) -> bool {
        nilable_converts(value, out)
    }

    fn convert(interp: &Artichoke, value: Option<String>) -> (r: Dynamic) {
        convert_nilable(interp, value)
    }
}

impl TryConvert<Artichoke, Dynamic> for Option<String> {
    type From = Ruby;

    type To = Rust;

    open spec fn try_converts(value: Dynamic, out: Result<Option<String>, Error<Ruby, Rust>>) -> bool {
        nilable_try_converts(value, out)
    }

    fn try_convert(interp: &Artichoke, value: Dynamic) -> (r: Result<
        Option<String>,
        Error<Ruby, Rust>,
    >) {
        try_convert_nilable(interp, value)
    }
}

} // verus!
