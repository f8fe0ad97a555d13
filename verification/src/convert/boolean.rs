//! Booleans across the boundary.

use vstd::prelude::*;
use crate::convert::{Convert, Error, TryConvert};
use crate::value::types::{Ruby, Rust};
use crate::value::{Dynamic, DynamicView, Value};
use crate::Artichoke;

verus! {

/// The host boolean that a dynamic value stands for.
pub open spec fn bool_of(value: DynamicView) -> Result<bool, Error<Ruby, Rust>> {
    match value {
        DynamicView::Bool(b) => Ok(b),
        other => Err(Error { from: other.tag(), to: Rust::Bool }),
    }
}

impl Convert<Artichoke, bool> for Dynamic {
    type From = Rust;

    type To = Ruby;

    open spec fn converts(value: bool, out: Dynamic) -> bool {
        out@ == DynamicView::Bool(value)
    }

    fn convert(_interp: &Artichoke, value: bool) -> (r: Dynamic) {
        Dynamic::Bool(value)
    }
}

impl TryConvert<Artichoke, Dynamic> for bool {
    type From = Ruby;

    type To = Rust;

    open spec fn try_converts(value: Dynamic, out: Result<bool, Error<Ruby, Rust>>) -> bool {
        out == bool_of(value@)
    }

    fn try_convert(_interp: &Artichoke, value: Dynamic) -> (r: Result<bool, Error<Ruby, Rust>>) {
        match value {
            Dynamic::Bool(b) => Ok(b),
            other => Err(Error { from: other.ruby_type(), to: Rust::Bool }),
        }
    }
}

} // verus!
