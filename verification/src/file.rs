//! Source files that are backed by the host.

use vstd::prelude::*;
use crate::ArtichokeError;

verus! {

/// A source file whose content is defined by the host: requiring the file
/// runs `require`.
pub trait File<I> {
    /// Define in the interpreter what the file stands for.
    fn require(interp: &I) -> Result<(), ArtichokeError>;
}

} // verus!
