//! Compound values: what a variable of the scripting language can hold.

use vstd::prelude::*;
use crate::kind::RootKind;
use crate::kind::TracedKind;
use crate::refs::ObjectRef;
use crate::refs::StringRef;
use crate::refs::SymbolRef;

verus! {

/// A value of the scripting language. A double is held as the 64 bits of its
/// IEEE 754 encoding.
#[derive(Clone, Copy, PartialEq, Eq, Structural, Debug, Hash)]
pub enum Value {
    Undefined,
    Null,
    Boolean(bool),
    Int32(i32),
    Double(u64),
    String(StringRef),
    Symbol(SymbolRef),
    Object(ObjectRef),
}

/// All bits of a double but its sign.
pub const DOUBLE_MAGNITUDE_MASK: u64 = 0x7fff_ffff_ffff_ffff;

/// The magnitude of an infinity: every bit of the exponent, none of the
/// fraction.
pub const DOUBLE_INFINITY: u64 = 0x7ff0_0000_0000_0000;

/// Whether the double with these bits is not a number: its exponent is all
/// ones and its fraction is not zero.
pub open spec fn double_is_nan(bits: u64) -> bool {
    (bits & DOUBLE_MAGNITUDE_MASK) > DOUBLE_INFINITY
}

/// Whether the double with these bits is zero, of either sign.
pub open spec fn double_is_zero(bits: u64) -> bool {
    (bits & DOUBLE_MAGNITUDE_MASK) == 0
}

impl Value {
    pub fn is_undefined(&self) -> (b: bool)
        ensures
            b == (self is Undefined),
    {
        matches!(self, Value::Undefined)
    }

    pub fn is_null(&self) -> (b: bool)
        ensures
            b == (self is Null),
    {
        matches!(self, Value::Null)
    }

    pub fn is_null_or_undefined(&self) -> (b: bool)
        ensures
            b == (self is Null || self is Undefined),
    {
        matches!(self, Value::Null | Value::Undefined)
    }

    pub fn is_boolean(&self) -> (b: bool)
        ensures
            b == (self is Boolean),
    {
        matches!(self, Value::Boolean(_))
    }

    pub fn is_int32(&self) -> (b: bool)
        ensures
            b == (self is Int32),
    {
        matches!(self, Value::Int32(_))
    }

    pub fn is_double(&self) -> (b: bool)
        ensures
            b == (self is Double),
    {
        matches!(self, Value::Double(_))
    }

    pub fn is_number(&self) -> (b: bool)
        ensures
            b == (self is Int32 || self is Double),
    {
        matches!(self, Value::Int32(_) | Value::Double(_))
    }

    pub fn is_string(&self) -> (b: bool)
        ensures
            b == (self is String),
    {
        matches!(self, Value::String(_))
    }

    pub fn is_symbol(&self) -> (b: bool)
        ensures
            b == (self is Symbol),
    {
        matches!(self, Value::Symbol(_))
    }

    pub fn is_object(&self) -> (b: bool)
        ensures
            b == (self is Object),
    {
        matches!(self, Value::Object(_))
    }

    pub fn is_object_or_null(&self) -> (b: bool)
        ensures
            b == (self is Object || self is Null),
    {
        matches!(self, Value::Object(_) | Value::Null)
    }

    /// The boolean that a boolean value holds.
    pub fn to_boolean(&self) -> (b: bool)
        requires
            self is Boolean,
        ensures
            *self == Value::Boolean(b),
    {
        match self {
            Value::Boolean(b) => *b,
            _ => false,
        }
    }

    /// The integer that an int32 value holds.
    pub fn to_int32(&self) -> (i: i32)
        requires
            self is Int32,
        ensures
            *self == Value::Int32(i),
    {
        match self {
            Value::Int32(i) => *i,
            _ => 0,
        }
    }

    /// The bits of the double that a double value holds.
    pub fn to_double_bits(&self) -> (bits: u64)
        requires
            self is Double,
        ensures
            *self == Value::Double(bits),
    {
        match self {
            Value::Double(bits) => *bits,
            _ => 0,
        }
    }

    /// The string that a string value refers to.
    pub fn to_string(&self) -> (s: StringRef)
        requires
            self is String,
        ensures
            *self == Value::String(s),
    {
        match self {
            Value::String(s) => *s,
            _ => StringRef(0),
        }
    }

    /// The object that an object value refers to.
    pub fn to_object(&self) -> (o: ObjectRef)
        requires
            self is Object,
        ensures
            *self == Value::Object(o),
    {
        match self {
            Value::Object(o) => *o,
            _ => ObjectRef(0),
        }
    }

    /// The object that an object value refers to, and no object for null.
    pub fn to_object_or_null(&self) -> (o: ObjectRef)
        requires
            self is Object || self is Null,
        ensures
            self is Object ==> *self == Value::Object(o),
            self is Null ==> o == ObjectRef(0),
    {
        match self {
            Value::Object(o) => *o,
            _ => ObjectRef(0),
        }
    }
}

impl RootKind for Value {
    open spec fn kind() -> TracedKind {
        TracedKind::Value
    }

    #[allow(non_snake_case)]
    fn rootKind() -> (kind: TracedKind) {
        TracedKind::Value
    }
}

impl Default for Value {
    fn default() -> (v: Value)
        ensures
            v == Value::Undefined,
    {
        Value::Undefined
    }
}

} // verus!
