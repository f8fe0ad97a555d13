//! Integers across the boundary.

use vstd::prelude::*;
use crate::convert::{Convert, Error, TryConvert};
use crate::value::types::{Int, Ruby, Rust};
use crate::value::{Dynamic, DynamicView, Value};
use crate::Artichoke;

verus! {

/// The host integer that a dynamic value stands for.
pub open spec fn int_of(value: DynamicView) -> Result<Int, Error<Ruby, Rust>> {
    match value {
        DynamicView::Fixnum(i) => Ok(i),
        other => Err(Error { from: other.tag(), to: Rust::SignedInt }),
    }
}

/// The host size that a dynamic value stands for: an integer of the runtime
/// that is not negative and fits the host's sizes.
pub open spec fn usize_of(value: DynamicView) -> Result<usize, Error<Ruby, Rust>> {
    match value {
        DynamicView::Fixnum(i) => if 0 <= i <= usize::MAX {
            Ok(i as usize)
        } else {
            Err(Error { from: Ruby::Fixnum, to: Rust::UnsignedInt })
        },
        other => Err(Error { from: other.tag(), to: Rust::UnsignedInt }),
    }
}

/// Whether a dynamic value stands for a host integer.
pub fn is_int(value: &Dynamic) -> (r: bool)
    ensures
        r == int_of(value@) is Ok,
{
    match value {
        Dynamic::Fixnum(_) => true,
        _ => false,
    }
}

impl Convert<Artichoke, Int> for Dynamic {
    type From = Rust;

    type To = Ruby;

    open spec fn converts(value: Int, out: Dynamic) -> bool {
        out@ == DynamicView::Fixnum(value)
    }

    fn convert(_interp: &Artichoke, value: Int) -> (r: Dynamic) {
        Dynamic::Fixnum(value)
    }
}

impl TryConvert<Artichoke, Dynamic> for Int {
    type From = Ruby;

    type To = Rust;

    open spec fn try_converts(value: Dynamic, out: Result<Int, Error<Ruby, Rust>>) -> bool {
        out == int_of(value@)
    }

    fn try_convert(_interp: &Artichoke, value: Dynamic) -> (r: Result<Int, Error<Ruby, Rust>>) {
        match value {
            Dynamic::Fixnum(i) => Ok(i),
            other => Err(Error { from: other.ruby_type(), to: Rust::SignedInt }),
        }
    }
}

impl TryConvert<Artichoke, Dynamic> for usize {
    type From = Ruby;

    type To = Rust;

    open spec fn try_converts(value: Dynamic, out: Result<usize, Error<Ruby, Rust>>) -> bool {
        out == usize_of(value@)
    }

    fn try_convert(_interp: &Artichoke, value: Dynamic) -> (r: Result<usize, Error<Ruby, Rust>>) {
        match value {
            Dynamic::Fixnum(i) => match usize::try_from(i) {
                Ok(size) => Ok(size),
                Err(_) => Err(Error { from: Ruby::Fixnum, to: Rust::UnsignedInt }),
            },
            other => Err(Error { from: other.ruby_type(), to: Rust::UnsignedInt }),
        }
    }
}

/// An integer that went to the runtime comes back as it was.
pub proof fn int_round_trip(v: Int, d: Dynamic, r: Result<Int, Error<Ruby, Rust>>)
    requires
        <Dynamic as Convert<Artichoke, Int>>::converts(v, d),
        <Int as TryConvert<Artichoke, Dynamic>>::try_converts(d, r),
    ensures
        r == Ok::<Int, Error<Ruby, Rust>>(v),
{
}

} // verus!
