//! Where sources are placed in the virtual filesystem.

use vstd::prelude::*;
use vstd::string::StringExecFns;
use crate::fs::RUBY_LOAD_PATH;

verus! {

/// The path at which a source is placed: the path itself if it is absolute,
/// and else the path below the load path.
pub open spec fn normalized(filename: Seq<char>, relative: bool) -> Seq<char> {
    if relative {
        RUBY_LOAD_PATH@ + "/"@ + filename
    } else {
        filename
    }
}

/// Place a source below the load path, unless its path is absolute.
/// `relative` says whether the path is relative.
pub fn normalize_source_path(filename: &str, relative: bool) -> (r: String)
    ensures
        r@ == normalized(filename@, relative),
{
    if relative {
        String::from_str(RUBY_LOAD_PATH).concat("/").concat(filename)
    } else {
        filename.to_owned()
    }
}

} // verus!
