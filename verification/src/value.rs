//! Dynamic values of the runtime and their type tags.

pub mod types;

use vstd::prelude::*;
use crate::value::types::{Float, Int, Ruby};
use crate::Artichoke;

verus! {

/// A value of the runtime, as the host sees it across the boundary.
///
/// Scalars, strings and arrays carry their content. Every other kind of
/// value is known to the host by its kind alone.
#[derive(Debug, PartialEq, Eq)]
pub enum Dynamic {
    Array(Vec<Dynamic>),
    Bool(bool),
    Class,
    CPointer,
    Data,
    Exception,
    Fiber,
    Fixnum(Int),
    Float(Float),
    Hash,
    InlineStruct,
    Module,
    Nil,
    Object,
    Proc,
    Range,
    SingletonClass,
    String(Vec<u8>),
    Symbol,
    Unreachable,
}

/// Mathematical content of a [`Dynamic`].
pub enum DynamicView {
    Array(Seq<DynamicView>),
    Bool(bool),
    Class,
    CPointer,
    Data,
    Exception,
    Fiber,
    Fixnum(Int),
    Float(Float),
    Hash,
    InlineStruct,
    Module,
    Nil,
    Object,
    Proc,
    Range,
    SingletonClass,
    String(Seq<u8>),
    Symbol,
    Unreachable,
}

impl DynamicView {
    /// The kind of the value.
    pub open spec fn tag(self) -> Ruby {
        match self {
            DynamicView::Array(_) => Ruby::Array,
            DynamicView::Bool(_) => Ruby::Bool,
            DynamicView::Class => Ruby::Class,
            DynamicView::CPointer => Ruby::CPointer,
            DynamicView::Data => Ruby::Data,
            DynamicView::Exception => Ruby::Exception,
            DynamicView::Fiber => Ruby::Fiber,
            DynamicView::Fixnum(_) => Ruby::Fixnum,
            DynamicView::Float(_) => Ruby::Float,
            DynamicView::Hash => Ruby::Hash,
            DynamicView::InlineStruct => Ruby::InlineStruct,
            DynamicView::Module => Ruby::Module,
            DynamicView::Nil => Ruby::Nil,
            DynamicView::Object => Ruby::Object,
            DynamicView::Proc => Ruby::Proc,
            DynamicView::Range => Ruby::Range,
            DynamicView::SingletonClass => Ruby::SingletonClass,
            DynamicView::String(_) => Ruby::String,
            DynamicView::Symbol => Ruby::Symbol,
            DynamicView::Unreachable => Ruby::Unreachable,
        }
    }
}

impl View for Dynamic {
    type V = DynamicView;

    open spec fn view(&self) -> DynamicView
        decreases self,
    {
        match self {
            Dynamic::Array(items) => DynamicView::Array(
                Seq::new(
                    items@.len(),
                    |i: int|
                        if 0 <= i < items@.len() {
                            items@[i]@
                        } else {
                            DynamicView::Nil
                        },
                ),
            ),
            Dynamic::Bool(b) => DynamicView::Bool(*b),
            Dynamic::Class => DynamicView::Class,
            Dynamic::CPointer => DynamicView::CPointer,
            Dynamic::Data => DynamicView::Data,
            Dynamic::Exception => DynamicView::Exception,
            Dynamic::Fiber => DynamicView::Fiber,
            Dynamic::Fixnum(i) => DynamicView::Fixnum(*i),
            Dynamic::Float(f) => DynamicView::Float(*f),
            Dynamic::Hash => DynamicView::Hash,
            Dynamic::InlineStruct => DynamicView::InlineStruct,
            Dynamic::Module => DynamicView::Module,
            Dynamic::Nil => DynamicView::Nil,
            Dynamic::Object => DynamicView::Object,
            Dynamic::Proc => DynamicView::Proc,
            Dynamic::Range => DynamicView::Range,
            Dynamic::SingletonClass => DynamicView::SingletonClass,
            Dynamic::String(bytes) => DynamicView::String(bytes@),
            Dynamic::Symbol => DynamicView::Symbol,
            Dynamic::Unreachable => DynamicView::Unreachable,
        }
    }
}

/// What every value of the runtime can tell about itself.
pub trait Value<I> {
    /// The kind of the value.
    spec fn tag(&self) -> Ruby;

    /// The kind of the value.
    fn ruby_type(&self) -> (r: Ruby)
        ensures
            r == self.tag(),
    ;

    /// Whether the value is internal to the runtime and must not be handed
    /// to the host.
    fn is_unreachable(&self) -> (r: bool)
        ensures
            r == (self.tag() == Ruby::Unreachable),
    {
        self.ruby_type() == Ruby::Unreachable
    }
}

impl Value<Artichoke> for Dynamic {
    open spec fn tag(&self) -> Ruby {
        self@.tag()
    }

    fn ruby_type(&self) -> (r: Ruby) {
        match self {
            Dynamic::Array(_) => Ruby::Array,
            Dynamic::Bool(_) => Ruby::Bool,
            Dynamic::Class => Ruby::Class,
            Dynamic::CPointer => Ruby::CPointer,
            Dynamic::Data => Ruby::Data,
            Dynamic::Exception => Ruby::Exception,
            Dynamic::Fiber => Ruby::Fiber,
            Dynamic::Fixnum(_) => Ruby::Fixnum,
            Dynamic::Float(_) => Ruby::Float,
            Dynamic::Hash => Ruby::Hash,
            Dynamic::InlineStruct => Ruby::InlineStruct,
            Dynamic::Module => Ruby::Module,
            Dynamic::Nil => Ruby::Nil,
            Dynamic::Object => Ruby::Object,
            Dynamic::Proc => Ruby::Proc,
            Dynamic::Range => Ruby::Range,
            Dynamic::SingletonClass => Ruby::SingletonClass,
            Dynamic::String(_) => Ruby::String,
            Dynamic::Symbol => Ruby::Symbol,
            Dynamic::Unreachable => Ruby::Unreachable,
        }
    }
}

} // verus!
