//! The file that the interpreter is executing.

use vstd::prelude::*;

verus! {

/// Name of the file that code without a file is evaluated in.
pub const TOP_FILENAME: &'static str = "(eval)";

/// What the interpreter knows about the file it is executing, as files
/// require each other.
#[derive(Debug, Clone, PartialEq, Eq)]
pub struct Context {
    /// Value of the `__FILE__` magic constant, which also appears in stack
    /// frames.
    pub filename: String,
}

impl Context {
    /// A context for the file of the given name.
    pub fn new(filename: &str) -> (r: Self)
        ensures
            r.filename@ == filename@,
    {
        Context { filename: filename.to_owned() }
    }

    /// The root context, in which `__FILE__` is `(eval)`.
    pub fn root() -> (r: Self)
        ensures
            r.filename@ == TOP_FILENAME@,
    {
        Context { filename: TOP_FILENAME.to_owned() }
    }
}

impl Default for Context {
    fn default() -> (r: Self)
        ensures
            r.filename@ == TOP_FILENAME@,
    {
        Context::root()
    }
}

} // verus!
