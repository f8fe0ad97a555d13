//! Byte buffers across the boundary.
//!
//! Strings of the runtime hold raw bytes, so a buffer crosses as it is, in
//! both directions.

use vstd::prelude::*;
use vstd::slice::slice_to_vec;
use crate::convert::{Convert, Error, TryConvert};
use crate::value::types::{Ruby, Rust};
use crate::value::{Dynamic, DynamicView, Value};
use crate::Artichoke;

verus! {

/// The byte buffer that a dynamic value stands for.
pub open spec fn bytes_of(value: DynamicView) -> Result<Seq<u8>, Error<Ruby, Rust>> {
    match value {
        DynamicView::String(bytes) => Ok(bytes),
        other => Err(Error { from: other.tag(), to: Rust::Bytes }),
    }
}

impl Convert<Artichoke, Vec<u8>> for Dynamic {
    type From = Rust;

    type To = Ruby;

    open spec fn converts(value: Vec<u8>, out: Dynamic) -> bool {
        out@ == DynamicView::String(value@)
    }

    fn convert(interp: &Artichoke, value: Vec<u8>) -> (r: Dynamic) {
        <Dynamic as Convert<Artichoke, &[u8]>>::convert(interp, value.as_slice())
    }
}

impl<'a> Convert<Artichoke, &'a [u8]> for Dynamic {
    type From = Rust;

    type To = Ruby;

    open spec fn converts(value: &'a [u8], out: Dynamic) -> bool {
        out@ == DynamicView::String(value@)
    }

    fn convert(_interp: &Artichoke, value: &'a [u8]) -> (r: Dynamic) {
        let r = Dynamic::String(slice_to_vec(value));
        assert(<Dynamic as Convert<Artichoke, &'a [u8]>>::converts(value, r));
        r
    }
}

impl TryConvert<Artichoke, Dynamic> for Vec<u8> {
    type From = Ruby;

    type To = Rust;

    open spec fn try_converts(value: Dynamic, out: Result<Vec<u8>, Error<Ruby, Rust>>) -> bool {
        match out {
            Ok(bytes) => bytes_of(value@) == Ok::<Seq<u8>, Error<Ruby, Rust>>(bytes@),
            Err(e) => bytes_of(value@) == Err::<Seq<u8>, Error<Ruby, Rust>>(e),
        }
    }

    fn try_convert(_interp: &Artichoke, value: Dynamic) -> (r: Result<
        Vec<u8>,
        Error<Ruby, Rust>,
    >) {
        match value {
            Dynamic::String(bytes) => Ok(bytes),
            other => Err(Error { from: other.ruby_type(), to: Rust::Bytes }),
        }
    }
}

/// A byte buffer that went to the runtime comes back as it was, and on the
/// way it is a string of the runtime with exactly as many bytes.
pub proof fn bytes_round_trip(b: Vec<u8>, d: Dynamic, r: Result<Vec<u8>, Error<Ruby, Rust>>)
    requires
        <Dynamic as Convert<Artichoke, Vec<u8>>>::converts(b, d),
        <Vec<u8> as TryConvert<Artichoke, Dynamic>>::try_converts(d, r),
    ensures
        d@.tag() == Ruby::String,
        d@ matches DynamicView::String(held) && held.len() == b@.len(),
        r matches Ok(back) && back@ == b@,
{
}

} // verus!
