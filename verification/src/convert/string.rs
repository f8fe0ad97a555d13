//! Text across the boundary.
//!
//! Host text goes to the runtime as the bytes of its UTF-8 encoding. A string
//! of the runtime comes back as host text only if its bytes are UTF-8.

use vstd::prelude::*;
use vstd::slice::slice_to_vec;
use vstd::string::StringSliceAdditionalSpecFns;
use vstd::utf8::{decode_utf8, encode_utf8, valid_utf8};
use crate::convert::{Convert, Error, TryConvert};
use crate::value::types::{Ruby, Rust};
use crate::value::{Dynamic, DynamicView, Value};
use crate::Artichoke;

verus! {

/// The host text that a dynamic value stands for.
pub open spec fn string_of(value: DynamicView) -> Result<Seq<char>, Error<Ruby, Rust>> {
    match value {
        DynamicView::String(bytes) => if valid_utf8(bytes) {
            Ok(decode_utf8(bytes))
        } else {
            Err(Error { from: Ruby::String, to: Rust::String })
        },
        other => Err(Error { from: other.tag(), to: Rust::String }),
    }
}

/// `String::from_utf8` of the standard library: the text that the bytes
/// encode, or nothing if the bytes are not UTF-8.
#[verifier::external_body]
fn string_from_utf8(bytes: Vec<u8>) -> (r: Option<String>)
    ensures
        r is Some <==> valid_utf8(bytes@),
        r matches Some(text) ==> text@ == decode_utf8(bytes@),
{
    String::from_utf8(bytes).ok()
}

/// Whether a dynamic value stands for host text: whether it is a string of
/// the runtime whose bytes are UTF-8.
pub fn is_text(value: &Dynamic) -> (r: bool)
    ensures
        r == string_of(value@) is Ok,
{
    match value {
        Dynamic::String(bytes) => string_from_utf8(slice_to_vec(bytes.as_slice())).is_some(),
        _ => false,
    }
}

impl<'a> Convert<Artichoke, &'a str> for Dynamic {
    type From = Rust;

    type To = Ruby;

    open spec fn converts(value: &'a str, out: Dynamic) -> bool {
        out@ == DynamicView::String(encode_utf8(value@))
    }

    fn convert(_interp: &Artichoke, value: &'a str) -> (r: Dynamic) {
        let r = Dynamic::String(slice_to_vec(value.as_bytes()));
        assert(<Dynamic as Convert<Artichoke, &'a str>>::converts(value, r));
        r
    }
}

impl Convert<Artichoke, String> for Dynamic {
    type From = Rust;

    type To = Ruby;

    open spec fn converts(value: String, out: Dynamic) -> bool {
        out@ == DynamicView::String(encode_utf8(value@))
    }

    fn convert(interp: &Artichoke, value: String) -> (r: Dynamic) {
        <Dynamic as Convert<Artichoke, &str>>::convert(interp, value.as_str())
    }
}

impl TryConvert<Artichoke, Dynamic> for String {
    type From = Ruby;

    type To = Rust;

    open spec fn try_converts(value: Dynamic, out: Result<String, Error<Ruby, Rust>>) -> bool {
        match out {
            Ok(text) => string_of(value@) == Ok::<Seq<char>, Error<Ruby, Rust>>(text@),
            Err(e) => string_of(value@) == Err::<Seq<char>, Error<Ruby, Rust>>(e),
        }
    }

    fn try_convert(_interp: &Artichoke, value: Dynamic) -> (r: Result<
        String,
        Error<Ruby, Rust>,
    >) {
        match value {
            Dynamic::String(bytes) => match string_from_utf8(bytes) {
                Some(text) => Ok(text),
                None => Err(Error { from: Ruby::String, to: Rust::String }),
            },
            other => Err(Error { from: other.ruby_type(), to: Rust::String }),
        }
    }
}

/// Host text that went to the runtime comes back as it was.
pub proof fn string_round_trip(s: String, d: Dynamic, r: Result<String, Error<Ruby, Rust>>)
    requires
        <Dynamic as Convert<Artichoke, String>>::converts(s, d),
        <String as TryConvert<Artichoke, Dynamic>>::try_converts(d, r),
    ensures
        r matches Ok(back) && back@ == s@,
{
    vstd::utf8::encode_utf8_valid_utf8(s@);
    vstd::utf8::encode_utf8_decode_utf8(s@);
}

} // verus!
