//! What the virtual filesystem records about a source file.

use vstd::prelude::*;

verus! {

/// Directory of the virtual filesystem in which sources are searched.
pub const RUBY_LOAD_PATH: &'static str = "/src/lib";

/// What is recorded about one source file. `R` is the host's handle for
/// what requiring a file runs: a function of the host that defines what the
/// file stands for.
#[derive(Clone, Debug)]
pub struct Metadata<R: Clone> {
    /// What requiring the file runs, if it is backed by the host.
    pub require: Option<R>,
    already_required: bool,
}

impl<R: Clone> Metadata<R> {
    /// Whether the file was required.
    pub closed spec fn required(&self) -> bool {
        self.already_required
    }

    /// What requiring the file runs, if it is backed by the host.
    pub closed spec fn handle(&self) -> Option<R> {
        self.require
    }

    /// The record of a file that is not backed by the host and was not
    /// required yet.
    pub fn new() -> (r: Self)
        ensures
            r.handle() is None,
            !r.required(),
    {
        Metadata { require: None, already_required: false }
    }

    /// The same record, with the file marked as required.
    pub fn mark_required(self) -> (r: Self)
        ensures
            r.handle() == self.handle(),
            r.required(),
    {
        Metadata { require: self.require, already_required: true }
    }

    /// What requiring the file runs, if it is backed by the host.
    pub fn require(&self) -> (r: &Option<R>)
        ensures
            *r == self.handle(),
    {
        &self.require
    }

    /// Whether the file was required.
    pub fn is_already_required(&self) -> (r: bool)
        ensures
            r == self.required(),
    {
        self.already_required
    }
}

impl<R: Clone> Default for Metadata<R> {
    fn default() -> (r: Self)
        ensures
            r.handle() is None,
            !r.required(),
    {
        Metadata::new()
    }
}

} // verus!
