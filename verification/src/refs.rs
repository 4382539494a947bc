//! The references that native code holds into the collected heap.
//!
//! A reference is the address of a cell of the heap; the address 0 refers to
//! nothing. Each type of reference is traced under one kind.

use vstd::prelude::*;
use crate::consts::JSID_TYPE_VOID;
use crate::kind::RootKind;
use crate::kind::TracedKind;

verus! {

/// A reference to an object.
#[derive(Clone, Copy, PartialEq, Eq, Structural, Debug, Hash)]
pub struct ObjectRef(pub usize);

/// A reference to a string.
#[derive(Clone, Copy, PartialEq, Eq, Structural, Debug, Hash)]
pub struct StringRef(pub usize);

/// A reference to a string that is known to be flat.
#[derive(Clone, Copy, PartialEq, Eq, Structural, Debug, Hash)]
pub struct FlatStringRef(pub usize);

/// A reference to a function.
#[derive(Clone, Copy, PartialEq, Eq, Structural, Debug, Hash)]
pub struct FunctionRef(pub usize);

/// A reference to a symbol.
#[derive(Clone, Copy, PartialEq, Eq, Structural, Debug, Hash)]
pub struct SymbolRef(pub usize);

/// A reference to a script.
#[derive(Clone, Copy, PartialEq, Eq, Structural, Debug, Hash)]
pub struct ScriptRef(pub usize);

/// A property identifier, as the bits of its tagged word.
#[derive(Clone, Copy, PartialEq, Eq, Structural, Debug, Hash)]
pub struct JsId {
    pub bits: usize,
}

impl JsId {
    /// The identifier that names no property.
    pub fn void() -> (id: JsId)
        ensures
            id == (JsId { bits: JSID_TYPE_VOID as usize }),
    {
        JsId { bits: JSID_TYPE_VOID as usize }
    }
}

impl ObjectRef {
    /// The reference to no object.
    pub fn null() -> (r: ObjectRef)
        ensures
            r == ObjectRef(0),
    {
        ObjectRef(0)
    }

    /// Whether this reference refers to no object.
    pub fn is_null(&self) -> (b: bool)
        ensures
            b == (self.0 == 0),
    {
        self.0 == 0
    }
}

impl FunctionRef {
    /// The function seen as the object that it is.
    pub fn as_object(&self) -> (r: ObjectRef)
        ensures
            r == ObjectRef(self.0),
    {
        ObjectRef(self.0)
    }
}

impl RootKind for ObjectRef {
    open spec fn kind() -> TracedKind {
        TracedKind::Object
    }

    #[allow(non_snake_case)]
    fn rootKind() -> (kind: TracedKind) {
        TracedKind::Object
    }
}

impl RootKind for StringRef {
    open spec fn kind() -> TracedKind {
        TracedKind::String
    }

    #[allow(non_snake_case)]
    fn rootKind() -> (kind: TracedKind) {
        TracedKind::String
    }
}

impl RootKind for FlatStringRef {
    open spec fn kind() -> TracedKind {
        TracedKind::String
    }

    #[allow(non_snake_case)]
    fn rootKind() -> (kind: TracedKind) {
        TracedKind::String
    }
}

impl RootKind for FunctionRef {
    open spec fn kind() -> TracedKind {
        TracedKind::Function
    }

    #[allow(non_snake_case)]
    fn rootKind() -> (kind: TracedKind) {
        TracedKind::Function
    }
}

impl RootKind for SymbolRef {
    open spec fn kind() -> TracedKind {
        TracedKind::Symbol
    }

    #[allow(non_snake_case)]
    fn rootKind() -> (kind: TracedKind) {
        TracedKind::Symbol
    }
}

impl RootKind for ScriptRef {
    open spec fn kind() -> TracedKind {
        TracedKind::Script
    }

    #[allow(non_snake_case)]
    fn rootKind() -> (kind: TracedKind) {
        TracedKind::Script
    }
}

impl RootKind for JsId {
    open spec fn kind() -> TracedKind {
        TracedKind::Identifier
    }

    #[allow(non_snake_case)]
    fn rootKind() -> (kind: TracedKind) {
        TracedKind::Identifier
    }
}

impl Default for JsId {
    fn default() -> (id: JsId)
        ensures
            id == (JsId { bits: JSID_TYPE_VOID as usize }),
    {
        JsId::void()
    }
}

} // verus!
