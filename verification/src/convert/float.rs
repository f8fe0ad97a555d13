//! Floating values across the boundary.

use vstd::prelude::*;
use crate::convert::{Convert, Error, TryConvert};
use crate::value::types::{Float, Ruby, Rust};
use crate::value::{Dynamic, DynamicView, Value};
use crate::Artichoke;

verus! {

/// The host floating value that a dynamic value stands for.
pub open spec fn float_of(value: DynamicView) -> Result<Float, Error<Ruby, Rust>> {
    match value {
        DynamicView::Float(f) => Ok(f),
        other => Err(Error { from: other.tag(), to: Rust::Float }),
    }
}

impl Convert<Artichoke, Float> for Dynamic {
    type From = Rust;

    type To = Ruby;

    open spec fn converts(value: Float, out: Dynamic) -> bool {
        out@ == DynamicView::Float(value)
    }

    fn convert(_interp: &Artichoke, value: Float) -> (r: Dynamic) {
        Dynamic::Float(value)
    }
}

impl TryConvert<Artichoke, Dynamic> for Float {
    type From = Ruby;

    type To = Rust;

    open spec fn try_converts(value: Dynamic, out: Result<Float, Error<Ruby, Rust>>) -> bool {
        out == float_of(value@)
    }

    fn try_convert(_interp: &Artichoke, value: Dynamic) -> (r: Result<Float, Error<Ruby, Rust>>) {
        match value {
            Dynamic::Float(f) => Ok(f),
            other => Err(Error { from: other.ruby_type(), to: Rust::Float }),
        }
    }
}

} // verus!
