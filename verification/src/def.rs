//! Classes and modules, and the scopes in which they are defined.

use vstd::prelude::*;
use vstd::std_specs::cmp::PartialEqSpecImpl;
use vstd::string::StringExecFns;
use crate::ArtichokeError;

verus! {

/// The definition of a class or of a module: its name and the scope that it
/// is defined in, if it is not defined at the top.
#[derive(Debug)]
pub struct Definition {
    pub name: String,
    pub enclosing_scope: Option<Box<EnclosingRubyScope>>,
}

/// The scope in which a class or a module is defined: a class or a module
/// itself.
#[derive(Debug)]
pub enum EnclosingRubyScope {
    /// The scope is a class.
    Class {
        /// The definition of the class.
        spec: Definition,
    },
    /// The scope is a module.
    Module {
        /// The definition of the module.
        spec: Definition,
    },
}

/// A name within a scope: the name itself at the top, and else the name
/// behind the fully qualified name of the scope and `::`.
pub open spec fn qualified_spec(scope: Option<Seq<char>>, name: Seq<char>) -> Seq<char> {
    match scope {
        Some(scope) => scope + "::"@ + name,
        None => name,
    }
}

/// Qualify a name by the fully qualified name of its scope, if it has one.
pub fn qualified(scope: Option<String>, name: &str) -> (r: String)
    ensures
        r@ == qualified_spec(
            match scope {
                Some(scope) => Some(scope@),
                None => None,
            },
            name@,
        ),
{
    match scope {
        Some(scope) => scope.concat("::").concat(name),
        None => name.to_owned(),
    }
}

impl Definition {
    /// The fully qualified name of the class or module: its name, qualified
    /// by the fully qualified name of its scope where it has a scope.
    pub open spec fn fqname_spec(&self) -> Seq<char>
        decreases self,
    {
        match self.enclosing_scope {
            Some(scope) => qualified_spec(Some(scope.fqname_spec()), self.name@),
            None => qualified_spec(None, self.name@),
        }
    }

    /// The fully qualified name of the class or module.
    pub fn fqname(&self) -> (r: String)
        ensures
            r@ == self.fqname_spec(),
        decreases self,
    {
        match &self.enclosing_scope {
            Some(scope) => qualified(Some(scope.fqname()), self.name.as_str()),
            None => qualified(None, self.name.as_str()),
        }
    }
}

impl EnclosingRubyScope {
    /// The definition of the class or module that is the scope.
    pub open spec fn definition(&self) -> Definition {
        match self {
            EnclosingRubyScope::Class { spec } => *spec,
            EnclosingRubyScope::Module { spec } => *spec,
        }
    }

    /// The fully qualified name of the scope.
    pub open spec fn fqname_spec(&self) -> Seq<char>
        decreases self,
    {
        match self {
            EnclosingRubyScope::Class { spec } => spec.fqname_spec(),
            EnclosingRubyScope::Module { spec } => spec.fqname_spec(),
        }
    }

    /// The scope of what is defined in the given class.
    pub fn class(spec: Definition) -> (r: Self)
        ensures
            r == (EnclosingRubyScope::Class { spec }),
    {
        EnclosingRubyScope::Class { spec }
    }

    /// The scope of what is defined in the given module.
    pub fn module(spec: Definition) -> (r: Self)
        ensures
            r == (EnclosingRubyScope::Module { spec }),
    {
        EnclosingRubyScope::Module { spec }
    }

    /// The fully qualified name of the scope. In
    ///
    /// ```ruby
    /// module A
    ///   class B
    ///     module C
    ///     end
    ///   end
    /// end
    /// ```
    ///
    /// the fully qualified name of `C` is `A::B::C`.
    pub fn fqname(&self) -> (r: String)
        ensures
            r@ == self.fqname_spec(),
        decreases self,
    {
        match self {
            EnclosingRubyScope::Class { spec } => spec.fqname(),
            EnclosingRubyScope::Module { spec } => spec.fqname(),
        }
    }
}

/// What can install itself in an interpreter `I`: a class or a module with
/// all its methods. `C` is what the interpreter hands back for it.
pub trait Define<I, C> {
    /// Define the class or module and all of its methods in the interpreter.
    fn define(&self, interp: &I) -> Result<C, ArtichokeError>;
}

/// Two scopes are equal if both are classes or both are modules, and their
/// fully qualified names are equal.
impl PartialEq for EnclosingRubyScope {
    fn eq(&self, other: &Self) -> (r: bool) {
        match (self, other) {
            (EnclosingRubyScope::Class { .. }, EnclosingRubyScope::Class { .. }) => self.fqname()
                == other.fqname(),
            (
                EnclosingRubyScope::Module { .. },
                EnclosingRubyScope::Module { .. },
            ) => self.fqname() == other.fqname(),
            _ => false,
        }
    }
}

impl PartialEqSpecImpl for EnclosingRubyScope {
    open spec fn obeys_eq_spec() -> bool {
        true
    }

    open spec fn eq_spec(&self, other: &Self) -> bool {
        &&& (self is Class) == (other is Class)
        &&& self.fqname_spec() == other.fqname_spec()
    }
}

impl Eq for EnclosingRubyScope {

}

} // verus!
