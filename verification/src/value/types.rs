//! Type tags of the two sides of the boundary.

use vstd::prelude::*;
use vstd::string::StringExecFns;

verus! {

/// Integer type of the runtime.
pub type Int = i64;

/// A floating value of the runtime, held as its IEEE 754 bit pattern.
#[derive(Clone, Copy, Debug, PartialEq, Eq, Structural)]
pub struct Float {
    pub bits: u64,
}

impl Float {
    /// The floating value with the given bit pattern.
    pub fn from_bits(bits: u64) -> (r: Self)
        ensures
            r.bits == bits,
    {
        Float { bits }
    }

    /// The bit pattern of this floating value.
    pub fn to_bits(&self) -> (r: u64)
        ensures
            r == self.bits,
    {
        self.bits
    }
}

/// A tag that can name itself in a diagnostic.
pub trait Tag {
    /// The text by which the tag appears in a diagnostic.
    spec fn name_spec(&self) -> Seq<char>;

    /// Render the tag for a diagnostic.
    fn name(&self) -> (r: String)
        ensures
            r@ == self.name_spec(),
    ;
}

/// Kinds of host values.
#[derive(Clone, Copy, Debug, PartialEq, Eq, Structural)]
pub enum Rust {
    Bool,
    Bytes,
    Float,
    HashMap,
    Object,
    SignedInt,
    String,
    UnsignedInt,
    Vec,
}

impl Rust {
    /// The name of the host type behind the tag.
    pub open spec fn host_name_spec(&self) -> Seq<char> {
        match self {
            Rust::Bool => "bool"@,
            Rust::Bytes => "&[u8]"@,
            Rust::Float => "f64"@,
            Rust::HashMap => "HashMap"@,
            Rust::Object => "struct"@,
            Rust::SignedInt => "i64"@,
            Rust::String => "String"@,
            Rust::Vec => "Vec"@,
            Rust::UnsignedInt => "usize"@,
        }
    }

    /// The name of the host type behind the tag.
    pub fn host_name(&self) -> (r: &'static str)
        ensures
            r@ == self.host_name_spec(),
    {
        match self {
            Rust::Bool => "bool",
            Rust::Bytes => "&[u8]",
            Rust::Float => "f64",
            Rust::HashMap => "HashMap",
            Rust::Object => "struct",
            Rust::SignedInt => "i64",
            Rust::String => "String",
            Rust::Vec => "Vec",
            Rust::UnsignedInt => "usize",
        }
    }
}

impl Tag for Rust {
    open spec fn name_spec(&self) -> Seq<char> {
        "rust "@ + self.host_name_spec()
    }

    fn name(&self) -> (r: String) {
        String::from_str("rust ").concat(self.host_name())
    }
}

/// Kinds of dynamic values.
#[derive(Clone, Copy, Debug, PartialEq, Eq, Structural)]
pub enum Ruby {
    Array,
    Bool,
    Class,
    CPointer,
    Data,
    Exception,
    Fiber,
    Fixnum,
    Float,
    Hash,
    InlineStruct,
    Module,
    Nil,
    Object,
    Proc,
    Range,
    SingletonClass,
    String,
    Symbol,
    Unreachable,
}

impl Ruby {
    /// The class name under which the runtime reports values of this kind.
    pub open spec fn class_name_spec(&self) -> Seq<char> {
        match self {
            Ruby::Array => "Array"@,
            Ruby::Bool => "Boolean"@,
            Ruby::Class => "Class"@,
            Ruby::CPointer => "C Pointer"@,
            Ruby::Data => "Rust-backed Ruby instance"@,
            Ruby::Exception => "Exception"@,
            Ruby::Fiber => "Fiber"@,
            Ruby::Fixnum => "Fixnum"@,
            Ruby::Float => "Float"@,
            Ruby::Hash => "Hash"@,
            Ruby::InlineStruct => "Inline Struct"@,
            Ruby::Module => "Module"@,
            Ruby::Nil => "NilClass"@,
            Ruby::Object => "Object"@,
            Ruby::Proc => "Proc"@,
            Ruby::Range => "Range"@,
            Ruby::SingletonClass => "Singleton (anonymous) class"@,
            Ruby::String => "String"@,
            Ruby::Symbol => "Symbol"@,
            Ruby::Unreachable => "internal and unreachable"@,
        }
    }

    /// The class name under which the runtime reports values of this kind.
    pub fn class_name(&self) -> (r: String)
        ensures
            r@ == self.class_name_spec(),
    {
        let name: &str = match self {
            Ruby::Array => "Array",
            Ruby::Bool => "Boolean",
            Ruby::Class => "Class",
            Ruby::CPointer => "C Pointer",
            Ruby::Data => "Rust-backed Ruby instance",
            Ruby::Exception => "Exception",
            Ruby::Fiber => "Fiber",
            Ruby::Fixnum => "Fixnum",
            Ruby::Float => "Float",
            Ruby::Hash => "Hash",
            Ruby::InlineStruct => "Inline Struct",
            Ruby::Module => "Module",
            Ruby::Nil => "NilClass",
            Ruby::Object => "Object",
            Ruby::Proc => "Proc",
            Ruby::Range => "Range",
            Ruby::SingletonClass => "Singleton (anonymous) class",
            Ruby::String => "String",
            Ruby::Symbol => "Symbol",
            Ruby::Unreachable => "internal and unreachable",
        };
        String::from_str(name)
    }
}

impl Tag for Ruby {
    open spec fn name_spec(&self) -> Seq<char> {
        "ruby "@ + self.class_name_spec()
    }

    fn name(&self) -> (r: String) {
        let class = self.class_name();
        String::from_str("ruby ").concat(class.as_str())
    }
}

} // verus!
