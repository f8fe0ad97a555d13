//! Optional sequences across the boundary.

use vstd::prelude::*;
use crate::convert::array::float::floats_round_trip;
use crate::convert::nilable::{
    convert_nilable,
    nilable_converts,
    nilable_try_converts,
    try_convert_nilable,
};
use crate::convert::{Convert, Error, TryConvert};
use crate::value::types::{Float, Int, Ruby, Rust};
use crate::value::Dynamic;
use crate::Artichoke;

verus! {

impl Convert<Artichoke, Option<Vec<bool>>> for Dynamic {
    type From = Rust;

    type To = Ruby;

    open spec fn converts(value: Option<Vec<bool>>, out: Dynamic) -> bool {
        nilable_converts(value, out)
    }

    fn convert(interp: &Artichoke, value: Option<Vec<bool>>) -> (r: Dynamic) {
        convert_nilable(interp, value)
    }
}

impl TryConvert<Artichoke, Dynamic> for Option<Vec<bool>> {
    type From = Ruby;

    type To = Rust;

    open spec fn try_converts(value: Dynamic, out: Result<Option<Vec<bool>>, Error<Ruby, Rust>>) -> bool {
        nilable_try_converts(value, out)
    }

    fn try_convert(interp: &Artichoke, value: Dynamic) -> (r: Result<
        Option<Vec<bool>>,
        Error<Ruby, Rust>,
    >) {
        try_convert_nilable(interp, value)
    }
}

impl Convert<Artichoke, Option<Vec<Vec<u8>>>> for Dynamic {
    type From = Rust;

    type To = Ruby;

    open spec fn converts(value: Option<Vec<Vec<u8>>>, out: Dynamic) -> bool {
        nilable_converts(value, out)
    }

    fn convert(interp: &Artichoke, value: Option<Vec<Vec<u8>>>) -> (r: Dynamic) {
        convert_nilable(interp, value)
    }
}

impl TryConvert<Artichoke, Dynamic> for Option<Vec<Vec<u8>>> {
    type From = Ruby;

    type To = Rust;

    open spec fn try_converts(
        value: Dynamic,
        out: Result<Option<Vec<Vec<u8>>>, Error<Ruby, Rust>>,
    ) -> bool {
        nilable_try_converts(value, out)
    }

    fn try_convert(interp: &Artichoke, value: Dynamic) -> (r: Result<
        Option<Vec<Vec<u8>>>,
        Error<Ruby, Rust>,
    >) {
        try_convert_nilable(interp, value)
    }
}

impl Convert<Artichoke, Option<Vec<Int>>> for Dynamic {
    type From = Rust;

    type To = Ruby;

    open spec fn converts(value: Option<Vec<Int>>, out: Dynamic) -> bool {
        nilable_converts(value, out)
    }

    fn convert(interp: &Artichoke, value: Option<Vec<Int>>) -> (r: Dynamic) {
        convert_nilable(interp, value)
    }
}

impl TryConvert<Artichoke, Dynamic> for Option<Vec<Int>> {
    type From = Ruby;

    type To = Rust;

    open spec fn try_converts(value: Dynamic, out: Result<Option<Vec<Int>>, Error<Ruby, Rust>>) -> bool {
        nilable_try_converts(value, out)
    }

    fn try_convert(interp: &Artichoke, value: Dynamic) -> (r: Result<
        Option<Vec<Int>>,
        Error<Ruby, Rust>,
    >) {
        try_convert_nilable(interp, value)
    }
}

impl Convert<Artichoke, Option<Vec<Float>>> for Dynamic {
    type From = Rust;

    type To = Ruby;

    open spec fn converts(value: Option<Vec<Float>>, out: Dynamic) -> bool {
        nilable_converts(value, out)
    }

    fn convert(interp: &Artichoke, value: Option<Vec<Float>>) -> (r: Dynamic) {
        convert_nilable(interp, value)
    }
}

impl TryConvert<Artichoke, Dynamic> for Option<Vec<Float>> {
    type From = Ruby;

    type To = Rust;

    open spec fn try_converts(value: Dynamic, out: Result<Option<Vec<Float>>, Error<Ruby, Rust>>) -> bool {
        nilable_try_converts(value, out)
    }

    fn try_convert(interp: &Artichoke, value: Dynamic) -> (r: Result<
        Option<Vec<Float>>,
        Error<Ruby, Rust>,
    >) {
        try_convert_nilable(interp, value)
    }
}

impl Convert<Artichoke, Option<Vec<String>>> for Dynamic {
    type From = Rust;

    type To = Ruby;

    open spec fn converts(value: Option<Vec<String>>, out: Dynamic) -> bool {
        nilable_converts(value, out)
    }

    fn convert(interp: &Artichoke, value: Option<Vec<String>>) -> (r: Dynamic) {
        convert_nilable(interp, value)
    }
}

impl TryConvert<Artichoke, Dynamic> for Option<Vec<String>> {
    type From = Ruby;

    type To = Rust;

    open spec fn try_converts(value: Dynamic, out: Result<Option<Vec<String>>, Error<Ruby, Rust>>) -> bool {
        nilable_try_converts(value, out)
    }

    fn try_convert(interp: &Artichoke, value: Dynamic) -> (r: Result<
        Option<Vec<String>>,
        Error<Ruby, Rust>,
    >) {
        try_convert_nilable(interp, value)
    }
}

impl<'a> Convert<Artichoke, Option<Vec<&'a str>>> for Dynamic {
    type From = Rust;

    type To = Ruby;

    open spec fn converts(value: Option<Vec<&'a str>>, out: Dynamic) -> bool {
        nilable_converts(value, out)
    }

    fn convert(interp: &Artichoke, value: Option<Vec<&'a str>>) -> (r: Dynamic) {
        convert_nilable(interp, value)
    }
}

/// An optional sequence of floating values that went to the runtime comes
/// back as it was: absent if it was absent, and else present with the same
/// values.
pub proof fn optional_floats_round_trip(
    v: Option<Vec<Float>>,
    d: Dynamic,
    r: Result<Option<Vec<Float>>, Error<Ruby, Rust>>,
)
    requires
        <Dynamic as Convert<Artichoke, Option<Vec<Float>>>>::converts(v, d),
        <Option<Vec<Float>> as TryConvert<Artichoke, Dynamic>>::try_converts(d, r),
    ensures
        match v {
            Some(present) => r matches Ok(Some(back)) && back@ == present@,
            None => r == Ok::<Option<Vec<Float>>, Error<Ruby, Rust>>(None),
        },
{
    match v {
        Some(present) => {
            assert(d is Array);
            match r {
                Ok(Some(back)) => {
                    floats_round_trip(present, d, Ok(back));
                },
                Ok(None) => {},
                Err(e) => {
                    floats_round_trip(present, d, Err(e));
                },
            }
        },
        None => {},
    }
}

} // verus!
