//! Kinds of methods.

use vstd::prelude::*;

verus! {

/// Where a method is defined.
#[derive(Debug, Clone, Copy, Hash, PartialEq, Eq, Structural)]
pub enum Type {
    Class,
    Global,
    Instance,
    Module,
}

/// The description of a method that a class or a module defines. `M` is
/// the host function behind the method and `A` the description of its
/// arguments.
pub trait Spec<I, A, M> {
    /// Where the method is defined.
    fn method_type(&self) -> &Type;

    /// The host function behind the method.
    fn method(&self) -> M;

    /// The name of the method.
    fn name(&self) -> &str;

    /// The description of the arguments of the method.
    fn argspec(&self) -> A;
}

} // verus!
