//! `Regexp#fixed_encoding?`: whether a pattern is tied to an encoding.

use vstd::prelude::*;
use crate::extn::regexp::{Encoding, Regexp, NOENCODING};
use crate::value::{Dynamic, DynamicView};
use crate::Artichoke;

verus! {

/// Failure of the query.
#[derive(Clone, Copy, Debug, Hash, PartialEq, Eq, Structural)]
pub enum Error {
    /// The receiver is no pattern.
    Fatal,
}

/// Whether the pattern reports a fixed encoding. Either of two sources can
/// say so: the encoding mode, when it is anything but `Unset`, and the flags
/// of the literal, when they hold the no-encoding bit.
pub open spec fn is_fixed(regexp: &Regexp) -> bool {
    ||| regexp.encoding == Encoding::Fixed
    ||| regexp.encoding == Encoding::No
    ||| regexp.literal_options.flags & NOENCODING != 0
}

/// Answer the query with a boolean of the runtime.
pub fn method(_interp: &Artichoke, regexp: &Regexp) -> (r: Result<Dynamic, Error>)
    ensures
        r matches Ok(value) && value@ == DynamicView::Bool(is_fixed(regexp)),
{
    let fixed = match regexp.encoding {
        Encoding::Fixed => true,
        Encoding::No => true,
        Encoding::Unset => regexp.literal_options.flags() & NOENCODING != 0,
    };
    Ok(Dynamic::Bool(fixed))
}

} // verus!
