//! `Regexp#options`: the flags of a pattern.

use vstd::prelude::*;
use crate::extn::regexp::Regexp;
use crate::value::{Dynamic, DynamicView};
use crate::Artichoke;

verus! {

/// Failure of the query.
#[derive(Clone, Copy, Debug, Hash, PartialEq, Eq, Structural)]
pub enum Error {
    /// The receiver is no pattern.
    Fatal,
}

/// The flags of the literal united, bit by bit, with what the encoding mode
/// adds, as one integer of the runtime.
pub fn method(_interp: &Artichoke, regexp: &Regexp) -> (r: Result<Dynamic, Error>)
    ensures
        r matches Ok(value) && value@ == DynamicView::Fixnum(
            regexp.literal_options.flags | regexp.encoding.flags_spec(),
        ),
{
    let opts = regexp.literal_options.flags() | regexp.encoding.flags();
    Ok(Dynamic::Fixnum(opts))
}

} // verus!
