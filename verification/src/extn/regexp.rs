//! Patterns: their source text, their flags and their encoding mode, and the
//! engine that matches them.

pub mod engine;
pub mod fixed_encoding;
pub mod match_operator;
pub mod options;

use vstd::prelude::*;
use crate::value::types::Int;

verus! {

/// Flag of a pattern that ignores case.
pub const IGNORECASE: Int = 1;

/// Flag of a pattern in extended syntax.
pub const EXTENDED: Int = 2;

/// Flag of a pattern in which the dot matches a line break.
pub const MULTILINE: Int = 4;

/// Flag of a pattern that is locked to one encoding.
pub const FIXEDENCODING: Int = 16;

/// Flag of a pattern that was declared free of any encoding.
pub const NOENCODING: Int = 32;

/// Flags that a pattern literal was written with.
#[derive(Clone, Copy, Debug, PartialEq, Eq, Structural)]
pub struct Options {
    pub flags: Int,
}

impl Options {
    /// The flags as one integer.
    pub fn flags(&self) -> (r: Int)
        ensures
            r == self.flags,
    {
        self.flags
    }
}

/// Encoding mode of a pattern.
#[derive(Clone, Copy, Debug, PartialEq, Eq, Structural)]
pub enum Encoding {
    /// The pattern is locked to one encoding.
    Fixed,
    /// The pattern was declared free of any encoding.
    No,
    /// Nothing was said about the encoding.
    Unset,
}

impl Encoding {
    /// What the mode adds to the flags of a pattern.
    pub open spec fn flags_spec(&self) -> Int {
        match self {
            Encoding::Fixed => FIXEDENCODING,
            Encoding::No => NOENCODING,
            Encoding::Unset => 0,
        }
    }

    /// What the mode adds to the flags of a pattern.
    pub fn flags(&self) -> (r: Int)
        ensures
            r == self.flags_spec(),
    {
        match self {
            Encoding::Fixed => FIXEDENCODING,
            Encoding::No => NOENCODING,
            Encoding::Unset => 0,
        }
    }
}

/// A pattern. It does not change once it is made.
#[derive(Debug, Clone, PartialEq, Eq)]
pub struct Regexp {
    /// Source text of the pattern.
    pub pattern: String,
    /// Flags that the literal was written with.
    pub literal_options: Options,
    /// Encoding mode.
    pub encoding: Encoding,
}

impl Regexp {
    /// A pattern with the given source text, flags and encoding mode.
    pub fn new(pattern: &str, literal_options: Options, encoding: Encoding) -> (r: Self)
        ensures
            r.pattern@ == pattern@,
            r.literal_options == literal_options,
            r.encoding == encoding,
    {
        Regexp { pattern: pattern.to_owned(), literal_options, encoding }
    }

    /// A second pattern with the same source text, flags and encoding mode.
    pub fn duplicate(&self) -> (r: Self)
        ensures
            r == *self,
    {
        Regexp {
            pattern: self.pattern.clone(),
            literal_options: self.literal_options,
            encoding: self.encoding,
        }
    }
}

} // verus!
