//! Ordered sequences across the boundary.

pub mod float;

use vstd::prelude::*;
use crate::convert::{Convert, Error, TryConvert};
use crate::value::types::{Int, Ruby, Rust};
use crate::value::{Dynamic, DynamicView, Value};
use crate::Artichoke;

verus! {

/// Whether `out` is an array that holds, in order, what each of `items`
/// converts to.
pub open spec fn each_converts<T>(items: Seq<T>, out: Dynamic) -> bool where
    Dynamic: Convert<Artichoke, T>,
 {
    match out {
        Dynamic::Array(values) => {
            &&& values@.len() == items.len()
            &&& forall|i: int|
                0 <= i < items.len() ==> #[trigger] <Dynamic as Convert<Artichoke, T>>::converts(
                    items[i],
                    values@[i],
                )
        },
        _ => false,
    }
}

/// Convert each item and collect the results, in order, into an array.
pub fn convert_each<T>(interp: &Artichoke, value: Vec<T>) -> (r: Dynamic) where
    Dynamic: Convert<Artichoke, T>,

    ensures
        each_converts(value@, r),
{
    let mut values: Vec<Dynamic> = Vec::with_capacity(value.len());
    let ghost items = value@;
    for item in it: value
        invariant
            it.seq() == items,
            values@.len() == it.index(),
            forall|j: int|
                0 <= j < values@.len() ==> #[trigger] <Dynamic as Convert<Artichoke, T>>::converts(
                    items[j],
                    values@[j],
                ),
    {
        let converted = <Dynamic as Convert<Artichoke, T>>::convert(interp, item);
        values.push(converted);
    }
    Dynamic::Array(values)
}

/// Whether `out` is the outcome of converting `items` one by one, from the
/// first on: all of them converted, in order, or the failure of the first
/// item that does not convert.
pub open spec fn each_try_converts<T>(items: Seq<Dynamic>, out: Result<Vec<T>, Error<Ruby, Rust>>) -> bool where
    T: TryConvert<Artichoke, Dynamic, From = Ruby, To = Rust>,
 {
    match out {
        Ok(values) => {
            &&& values@.len() == items.len()
            &&& forall|i: int|
                0 <= i < items.len() ==> #[trigger] T::try_converts(items[i], Ok(values@[i]))
        },
        Err(e) => exists|converted: Seq<T>|
            {
                &&& converted.len() < items.len()
                &&& forall|i: int|
                    0 <= i < converted.len() ==> #[trigger] T::try_converts(
                        items[i],
                        Ok(converted[i]),
                    )
                &&& T::try_converts(items[converted.len() as int], Err(e))
            },
    }
}

/// Convert the items one by one, from the first on, and stop at the first
/// that fails.
pub fn try_convert_each<T>(interp: &Artichoke, items: Vec<Dynamic>) -> (r: Result<
    Vec<T>,
    Error<Ruby, Rust>,
>) where T: TryConvert<Artichoke, Dynamic, From = Ruby, To = Rust>
    ensures
        each_try_converts(items@, r),
{
    let mut values: Vec<T> = Vec::with_capacity(items.len());
    let ghost all = items@;
    for item in it: items
        invariant
            it.seq() == all,
            values@.len() == it.index(),
            forall|j: int|
                0 <= j < values@.len() ==> #[trigger] T::try_converts(all[j], Ok(values@[j])),
    {
        match T::try_convert(interp, item) {
            Ok(converted) => {
                values.push(converted);
            },
            Err(e) => {
                proof {
                    let converted = values@;
                    assert(T::try_converts(all[converted.len() as int], Err(e)));
                }
                return Err(e);
            },
        }
    }
    Ok(values)
}

/// Whether `out` is the outcome of converting `value` to a sequence: a value
/// that is no array fails as such, an array converts item by item.
pub open spec fn sequence_try_converts<T>(value: Dynamic, out: Result<Vec<T>, Error<Ruby, Rust>>) -> bool where
    T: TryConvert<Artichoke, Dynamic, From = Ruby, To = Rust>,
 {
    match value {
        Dynamic::Array(items) => each_try_converts(items@, out),
        other => out == Err::<Vec<T>, Error<Ruby, Rust>>(Error { from: other@.tag(), to: Rust::Vec }),
    }
}

/// Convert a dynamic array to a host sequence, item by item.
pub fn try_convert_sequence<T>(interp: &Artichoke, value: Dynamic) -> (r: Result<
    Vec<T>,
    Error<Ruby, Rust>,
>) where T: TryConvert<Artichoke, Dynamic, From = Ruby, To = Rust>
    ensures
        sequence_try_converts(value, r),
{
    match value {
        Dynamic::Array(items) => try_convert_each(interp, items),
        other => Err(Error { from: other.ruby_type(), to: Rust::Vec }),
    }
}

/// A value that is no array converts to no host sequence: the failure names
/// the kind of the value and the sequence that was asked for.
pub proof fn non_sequence_fails<T>(value: Dynamic, out: Result<Vec<T>, Error<Ruby, Rust>>) where
    T: TryConvert<Artichoke, Dynamic, From = Ruby, To = Rust>,

    requires
        !(value is Array),
        sequence_try_converts(value, out),
    ensures
        out == Err::<Vec<T>, Error<Ruby, Rust>>(Error { from: value@.tag(), to: Rust::Vec }),
{
}

impl Convert<Artichoke, Vec<Dynamic>> for Dynamic {
    type From = Rust;

    type To = Ruby;

    open spec fn converts(value: Vec<Dynamic>, out: Dynamic) -> bool {
        out == Dynamic::Array(value)
    }

    fn convert(_interp: &Artichoke, value: Vec<Dynamic>) -> (r: Dynamic) {
        Dynamic::Array(value)
    }
}

impl TryConvert<Artichoke, Dynamic> for Vec<Dynamic> {
    type From = Ruby;

    type To = Rust;

    open spec fn try_converts(value: Dynamic, out: Result<Vec<Dynamic>, Error<Ruby, Rust>>) -> bool {
        match value {
            Dynamic::Array(items) => out == Ok::<Vec<Dynamic>, Error<Ruby, Rust>>(items),
            other => out == Err::<Vec<Dynamic>, Error<Ruby, Rust>>(
                Error { from: other@.tag(), to: Rust::Vec },
            ),
        }
    }

    fn try_convert(_interp: &Artichoke, value: Dynamic) -> (r: Result<
        Vec<Dynamic>,
        Error<Ruby, Rust>,
    >) {
        match value {
            Dynamic::Array(items) => Ok(items),
            other => Err(Error { from: other.ruby_type(), to: Rust::Vec }),
        }
    }
}

impl Convert<Artichoke, Vec<bool>> for Dynamic {
    type From = Rust;

    type To = Ruby;

    open spec fn converts(value: Vec<bool>, out: Dynamic) -> bool {
        each_converts(value@, out)
    }

    fn convert(interp: &Artichoke, value: Vec<bool>) -> (r: Dynamic) {
        convert_each(interp, value)
    }
}

impl TryConvert<Artichoke, Dynamic> for Vec<bool> {
    type From = Ruby;

    type To = Rust;

    open spec fn try_converts(value: Dynamic, out: Result<Vec<bool>, Error<Ruby, Rust>>) -> bool {
        sequence_try_converts(value, out)
    }

    fn try_convert(interp: &Artichoke, value: Dynamic) -> (r: Result<
        Vec<bool>,
        Error<Ruby, Rust>,
    >) {
        try_convert_sequence(interp, value)
    }
}

impl Convert<Artichoke, Vec<Int>> for Dynamic {
    type From = Rust;

    type To = Ruby;

    open spec fn converts(value: Vec<Int>, out: Dynamic) -> bool {
        each_converts(value@, out)
    }

    fn convert(interp: &Artichoke, value: Vec<Int>) -> (r: Dynamic) {
        convert_each(interp, value)
    }
}

impl TryConvert<Artichoke, Dynamic> for Vec<Int> {
    type From = Ruby;

    type To = Rust;

    open spec fn try_converts(value: Dynamic, out: Result<Vec<Int>, Error<Ruby, Rust>>) -> bool {
        sequence_try_converts(value, out)
    }

    fn try_convert(interp: &Artichoke, value: Dynamic) -> (r: Result<
        Vec<Int>,
        Error<Ruby, Rust>,
    >) {
        try_convert_sequence(interp, value)
    }
}

impl Convert<Artichoke, Vec<Vec<u8>>> for Dynamic {
    type From = Rust;

    type To = Ruby;

    open spec fn converts(value: Vec<Vec<u8>>, out: Dynamic) -> bool {
        each_converts(value@, out)
    }

    fn convert(interp: &Artichoke, value: Vec<Vec<u8>>) -> (r: Dynamic) {
        convert_each(interp, value)
    }
}

impl TryConvert<Artichoke, Dynamic> for Vec<Vec<u8>> {
    type From = Ruby;

    type To = Rust;

    open spec fn try_converts(value: Dynamic, out: Result<Vec<Vec<u8>>, Error<Ruby, Rust>>) -> bool {
        sequence_try_converts(value, out)
    }

    fn try_convert(interp: &Artichoke, value: Dynamic) -> (r: Result<
        Vec<Vec<u8>>,
        Error<Ruby, Rust>,
    >) {
        try_convert_sequence(interp, value)
    }
}

impl Convert<Artichoke, Vec<String>> for Dynamic {
    type From = Rust;

    type To = Ruby;

    open spec fn converts(value: Vec<String>, out: Dynamic) -> bool {
        each_converts(value@, out)
    }

    fn convert(interp: &Artichoke, value: Vec<String>) -> (r: Dynamic) {
        convert_each(interp, value)
    }
}

impl TryConvert<Artichoke, Dynamic> for Vec<String> {
    type From = Ruby;

    type To = Rust;

    open spec fn try_converts(value: Dynamic, out: Result<Vec<String>, Error<Ruby, Rust>>) -> bool {
        sequence_try_converts(value, out)
    }

    fn try_convert(interp: &Artichoke, value: Dynamic) -> (r: Result<
        Vec<String>,
        Error<Ruby, Rust>,
    >) {
        try_convert_sequence(interp, value)
    }
}

impl<'a> Convert<Artichoke, Vec<&'a str>> for Dynamic {
    type From = Rust;

    type To = Ruby;

    open spec fn converts(value: Vec<&'a str>, out: Dynamic) -> bool {
        each_converts(value@, out)
    }

    fn convert(interp: &Artichoke, value: Vec<&'a str>) -> (r: Dynamic) {
        convert_each(interp, value)
    }
}

impl<'a> Convert<Artichoke, Vec<Option<&'a str>>> for Dynamic {
    type From = Rust;

    type To = Ruby;

    open spec fn converts(value: Vec<Option<&'a str>>, out: Dynamic) -> bool {
        each_converts(value@, out)
    }

    fn convert(interp: &Artichoke, value: Vec<Option<&'a str>>) -> (r: Dynamic) {
        convert_each(interp, value)
    }
}

} // verus!
